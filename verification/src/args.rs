//! The command line.

use crate::bootstrap::{Resume, ResumeView};
use crate::frame_state::opt_text;
use crate::text::{chars_of, lemma_span_is, span, string_of, text_eq, texts};
use vstd::prelude::*;
use vstd::string::*;

verus! {

/// How the program is called.
pub const USAGE: &'static str =
    "attacode — AttaCore 引擎的终端 UI\n\n用法: attacode [选项]\n\n选项:\n  -m, --model <NAME>  这次运行用的模型（压过 ANTHROPIC_MODEL 和 settings.json）\n  -c, --continue      接着本项目最近一次会话跑\n      --resume <ID>   接着指定的会话跑（不知道 id 就先进去，再用 /resume 挑）\n  -h, --help          打印这段帮助\n";

/// What the command line asks for.
#[derive(Debug)]
pub struct Args {
    pub model: Option<String>,
    pub resume: Option<Resume>,
}

/// What [`Args`] hold.
pub struct ArgsView {
    pub model: Option<Seq<char>>,
    pub resume: Option<ResumeView>,
}

impl View for Args {
    type V = ArgsView;

    open spec fn view(&self) -> ArgsView {
        ArgsView {
            model: opt_text(self.model),
            resume: match self.resume {
                Some(r) => Some(r@),
                None => None,
            },
        }
    }
}

impl Default for Args {
    fn default() -> (r: Self)
        ensures
            r@ == (ArgsView { model: None, resume: None }),
    {
        Args { model: None, resume: None }
    }
}

/// `--flag=value` as its two parts; an empty value is none.
pub open spec fn split_long_spec(arg: Seq<char>) -> Option<(Seq<char>, Seq<char>)> {
    let k = span(arg, '=') as int;
    if k + 1 < arg.len() {
        Some((arg.take(k), arg.skip(k + 1)))
    } else {
        None
    }
}

/// What an optional pair of texts holds.
pub open spec fn pair_view(p: Option<(String, String)>) -> Option<(Seq<char>, Seq<char>)> {
    match p {
        Some((a, b)) => Some((a@, b@)),
        None => None,
    }
}

pub fn split_long(arg: &str) -> (r: Option<(String, String)>)
    ensures
        pair_view(r) == split_long_spec(arg@),
{
    let v: Vec<char> = chars_of(arg);
    let n: usize = v.len();
    let mut k: usize = 0;
    while k < n && v[k] != '='
        invariant
            k <= n == v@.len(),
            forall|i: int| 0 <= i < k ==> v@[i] != '=',
        decreases n - k,
    {
        k += 1;
    }
    proof {
        lemma_span_is(v@, '=', k as int);
    }
    if k == n || n - k < 2 {
        return None;
    }
    let flag: String = string_of(vstd::slice::slice_subrange(v.as_slice(), 0, k));
    let value: String = string_of(vstd::slice::slice_subrange(v.as_slice(), k + 1, n));
    Some((flag, value))
}

pub open spec fn needs_value(arg: Seq<char>) -> Seq<char> {
    arg + " 需要一个值"@
}

pub open spec fn takes_no_value(flag: Seq<char>) -> Seq<char> {
    flag + " 不接受 `=值` 形式\n\n"@ + USAGE@
}

pub open spec fn unknown(arg: Seq<char>) -> Seq<char> {
    "未知参数: "@ + arg + "\n\n"@ + USAGE@
}

pub open spec fn is_help(a: Seq<char>) -> bool {
    a == "-h"@ || a == "--help"@
}

pub open spec fn is_model(a: Seq<char>) -> bool {
    a == "-m"@ || a == "--model"@
}

pub open spec fn is_continue(a: Seq<char>) -> bool {
    a == "-c"@ || a == "--continue"@
}

/// What the arguments from the `i`-th on ask for, behind what was asked for before: `None`
/// is a call for help, and what is not known is an error.
pub open spec fn parse_from(args: Seq<Seq<char>>, i: int, before: ArgsView) -> Result<
    Option<ArgsView>,
    Seq<char>,
>
    decreases args.len() - i,
{
    if i < 0 || i >= args.len() {
        Ok(Some(before))
    } else {
        let a = args[i];
        if is_help(a) {
            Ok(None)
        } else if is_model(a) || (a == "--resume"@ && !is_continue(a)) {
            if i + 1 < args.len() && args[i + 1].len() > 0 {
                let value = args[i + 1];
                parse_from(
                    args,
                    i + 2,
                    if is_model(a) {
                        ArgsView { model: Some(value), ..before }
                    } else {
                        ArgsView { resume: Some(ResumeView::Id(value)), ..before }
                    },
                )
            } else {
                Err(needs_value(a))
            }
        } else if is_continue(a) {
            parse_from(args, i + 1, ArgsView { resume: Some(ResumeView::Latest), ..before })
        } else {
            match split_long_spec(a) {
                Some((flag, value)) => if flag == "--model"@ {
                    parse_from(args, i + 1, ArgsView { model: Some(value), ..before })
                } else if flag == "--resume"@ {
                    parse_from(
                        args,
                        i + 1,
                        ArgsView { resume: Some(ResumeView::Id(value)), ..before },
                    )
                } else {
                    Err(takes_no_value(flag))
                },
                None => Err(unknown(a)),
            }
        }
    }
}

/// What the result of reading a command line holds.
pub open spec fn args_view(r: Result<Option<Args>, String>) -> Result<Option<ArgsView>, Seq<char>> {
    match r {
        Ok(Some(a)) => Ok(Some(a@)),
        Ok(None) => Ok(None),
        Err(e) => Err(e@),
    }
}

impl Args {
    /// Reads the arguments behind the program's name. `None` asks for help; an argument that
    /// is not known is an error, with the usage.
    pub fn parse(args: &Vec<String>) -> (r: Result<Option<Args>, String>)
        ensures
            args_view(r) == parse_from(
                texts(args@),
                0,
                ArgsView { model: None, resume: None },
            ),
    {
        let ghost all = texts(args@);
        let ghost goal = parse_from(all, 0, ArgsView { model: None, resume: None });
        let mut out: Args = Args::default();
        let n: usize = args.len();
        let mut i: usize = 0;
        while i < n
            invariant
                i <= n == args@.len(),
                all == texts(args@),
                goal == parse_from(all, 0, ArgsView { model: None, resume: None }),
                goal == parse_from(all, i as int, out@),
            decreases n - i,
        {
            let a: &str = args[i].as_str();
            if text_eq(a, "-h") || text_eq(a, "--help") {
                return Ok(None);
            }
            let model: bool = text_eq(a, "-m") || text_eq(a, "--model");
            let latest: bool = text_eq(a, "-c") || text_eq(a, "--continue");
            if model || (text_eq(a, "--resume") && !latest) {
                if n - i >= 2 && !args[i + 1].as_str().is_empty() {
                    let value: String = args[i + 1].clone();
                    if model {
                        out.model = Some(value);
                    } else {
                        out.resume = Some(Resume::Id(value));
                    }
                    i += 2;
                } else {
                    return Err(a.to_owned().concat(" 需要一个值"));
                }
            } else if latest {
                out.resume = Some(Resume::Latest);
                i += 1;
            } else {
                match split_long(a) {
                    Some((flag, value)) => {
                        if text_eq(flag.as_str(), "--model") {
                            out.model = Some(value);
                        } else if text_eq(flag.as_str(), "--resume") {
                            out.resume = Some(Resume::Id(value));
                        } else {
                            return Err(flag.concat(" 不接受 `=值` 形式\n\n").concat(USAGE));
                        }
                        i += 1;
                    },
                    None => {
                        return Err(
                            "未知参数: ".to_owned().concat(a).concat("\n\n").concat(USAGE),
                        );
                    },
                }
            }
        }
        Ok(Some(out))
    }
}

} // verus!
