//! Questions that the model asks, and who still waits for the answer.

use crate::frame_state::opt_text;
use crate::json::{array, array_spec, opt_quoted, opt_quoted_spec, quoted, quoted_spec};
use crate::text::{texts, trim, trim_spec};
use vstd::prelude::*;
use vstd::string::*;

verus! {

/// A question that waits for an answer.
#[derive(Debug, Clone)]
pub struct PendingQuestion {
    pub id: String,
    /// The title of the dialog.
    pub header: String,
    pub question: String,
    /// Keys and labels. Without any, the answer is typed.
    pub options: Vec<(String, String)>,
}

/// What becomes of a question on the way to the screen.
#[derive(Debug, Clone)]
pub enum QuestionEvent {
    Ask(PendingQuestion),
    /// Whoever asked does not wait any more.
    Withdraw(String),
}

/// The tool that the model asks with.
pub const ASK_TOOL: &'static str = "AskUserQuestion";

/// The title of a dialog: what the model gave, or the name of the tool where that is blank.
pub open spec fn header_spec(header: Option<Seq<char>>) -> Seq<char> {
    match header {
        Some(h) => if trim_spec(h).len() == 0 {
            ASK_TOOL@
        } else {
            h
        },
        None => ASK_TOOL@,
    }
}

/// Makes a question of the input of the tool.
pub fn question_from(
    tool_use_id: String,
    header: Option<String>,
    question: String,
    options: Vec<(String, String)>,
) -> (q: PendingQuestion)
    ensures
        q.id == tool_use_id,
        q.header@ == header_spec(opt_text(header)),
        q.question == question,
        q.options == options,
{
    let header: String = match header {
        Some(h) => if trim(h.as_str()).as_str().is_empty() {
            ASK_TOOL.to_owned()
        } else {
            h
        },
        None => ASK_TOOL.to_owned(),
    };
    PendingQuestion { id: tool_use_id, header, question, options }
}

/// An option as a JSON object.
pub open spec fn option_json_spec(option: (String, String)) -> Seq<char> {
    "{\"key\":"@ + quoted_spec(option.0@) + ",\"label\":"@ + quoted_spec(option.1@) + "}"@
}

/// A question as it was asked, as a JSON object. The title is what the model gave.
pub open spec fn question_json_spec(
    header: Option<Seq<char>>,
    question: Seq<char>,
    options: Seq<(String, String)>,
) -> Seq<char> {
    "{\"header\":"@ + opt_quoted_spec(header) + ",\"options\":"@ + array_spec(
        options.map_values(|o: (String, String)| option_json_spec(o)),
    ) + ",\"question\":"@ + quoted_spec(question) + "}"@
}

/// Writes a question for those who read the transcript.
pub fn question_json(
    header: &Option<String>,
    question: &str,
    options: &Vec<(String, String)>,
) -> (r: String)
    ensures
        r@ == question_json_spec(opt_text(*header), question@, options@),
{
    let mut items: Vec<String> = Vec::new();
    let mut i: usize = 0;
    while i < options.len()
        invariant
            i <= options@.len(),
            items@.len() == i,
            forall|j: int| 0 <= j < i ==> (#[trigger] items@[j])@ == option_json_spec(options@[j]),
        decreases options@.len() - i,
    {
        let (key, label) = &options[i];
        items.push(
            "{\"key\":".to_owned().concat(quoted(key.as_str()).as_str()).concat(
                ",\"label\":",
            ).concat(quoted(label.as_str()).as_str()).concat("}"),
        );
        i += 1;
    }
    assert(texts(items@) =~= options@.map_values(|o: (String, String)| option_json_spec(o)));
    "{\"header\":".to_owned().concat(opt_quoted(header).as_str()).concat(
        ",\"options\":",
    ).concat(array(&items).as_str()).concat(",\"question\":").concat(
        quoted(question).as_str(),
    ).concat("}")
}

/// What the model is told where nobody answered.
pub const NOT_ASKED: &'static str =
    "The user was not asked and has not answered: the question was withdrawn before anyone could answer it (the turn was cancelled, or the session ended).";

/// The result of the tool: the answer, or a sentence that there is none. The question is
/// never handed back in place of an answer.
pub fn answer_text(answer: Option<String>) -> (r: String)
    ensures
        r@ == match answer {
            Some(a) => a@,
            None => NOT_ASKED@,
        },
{
    match answer {
        Some(a) => a,
        None => NOT_ASKED.to_owned(),
    }
}

/// The questions that somebody still waits for.
#[derive(Debug, Clone)]
pub struct Questions {
    waiting: Vec<String>,
}

/// The texts in a list are all different.
pub open spec fn all_different(s: Seq<Seq<char>>) -> bool {
    forall|i: int, j: int| 0 <= i < j < s.len() ==> #[trigger] s[i] != #[trigger] s[j]
}

impl Questions {
    pub closed spec fn list(&self) -> Seq<Seq<char>> {
        texts(self.waiting@)
    }

    pub closed spec fn wf(&self) -> bool {
        all_different(self.list())
    }

    /// The ids that are waited for.
    pub open spec fn ids(&self) -> Set<Seq<char>> {
        self.list().to_set()
    }

    pub fn new() -> (r: Self)
        ensures
            r.wf(),
            r.ids() == Set::<Seq<char>>::empty(),
    {
        let r = Questions { waiting: Vec::new() };
        r
    }

    fn position(&self, id: &str) -> (k: usize)
        ensures
            k <= self.waiting@.len(),
            k < self.waiting@.len() <==> self.ids().contains(id@),
            k < self.waiting@.len() ==> self.waiting@[k as int]@ == id@,
    {
        let wanted: String = id.to_owned();
        let mut k: usize = 0;
        while k < self.waiting.len()
            invariant
                k <= self.waiting@.len(),
                wanted@ == id@,
                forall|j: int| 0 <= j < k ==> (#[trigger] self.waiting@[j])@ != id@,
            decreases self.waiting@.len() - k,
        {
            if self.waiting[k] == wanted {
                assert(self.list()[k as int] == id@);
                return k;
            }
            k += 1;
        }
        proof {
        }
        k
    }

    /// Somebody waits for the answer to `id` from now on.
    pub fn register(&mut self, id: &str)
        requires
            old(self).wf(),
        ensures
            final(self).wf(),
            final(self).ids() == old(self).ids().insert(id@),
    {
        let k: usize = self.position(id);
        let ghost before = self.list();
        if k == self.waiting.len() {
            self.waiting.push(id.to_owned());
            proof {
                assert(self.list() =~= before.push(id@));
                assert forall|x: Seq<char>| #[trigger]
                    self.ids().contains(x) <==> before.to_set().insert(id@).contains(x) by {
                    if before.contains(x) {
                        let i = choose|i: int| 0 <= i < before.len() && before[i] == x;
                        assert(self.list()[i] == x);
                    }
                    if x == id@ {
                        assert(self.list()[before.len() as int] == x);
                    }
                }
            }
        }
    }

    /// Stops waiting for `id`. The result says whether somebody was waiting.
    fn take(&mut self, id: &str) -> (r: bool)
        requires
            old(self).wf(),
        ensures
            final(self).wf(),
            r == old(self).ids().contains(id@),
            final(self).ids() == old(self).ids().remove(id@),
    {
        let k: usize = self.position(id);
        let ghost before = self.list();
        if k == self.waiting.len() {
            return false;
        }
        let _ = self.waiting.remove(k);
        proof {
            let after = self.list();
            assert(after =~= before.remove(k as int));
            assert forall|x: Seq<char>| #[trigger]
                self.ids().contains(x) <==> before.to_set().remove(id@).contains(x) by {
                if after.contains(x) {
                    assert(before[k as int] == id@);
                }
                if before.contains(x) && x != id@ {
                    let i = choose|i: int| 0 <= i < before.len() && before[i] == x;
                    let i2 = if i < k {
                        i
                    } else {
                        i - 1
                    };
                    assert(after[i2] == x);
                }
            }
        }
        true
    }

    /// The user answered. `false` means that nobody waits for it any more.
    pub fn answer(&mut self, id: &str) -> (r: bool)
        requires
            old(self).wf(),
        ensures
            final(self).wf(),
            r == old(self).ids().contains(id@),
            final(self).ids() == old(self).ids().remove(id@),
    {
        self.take(id)
    }

    /// Whoever asked gave up. The dialog is taken away where the question was still open; a
    /// question that was answered is not withdrawn as well.
    pub fn give_up(&mut self, id: &str) -> (r: Option<QuestionEvent>)
        requires
            old(self).wf(),
        ensures
            final(self).wf(),
            final(self).ids() == old(self).ids().remove(id@),
            match r {
                Some(QuestionEvent::Withdraw(x)) => old(self).ids().contains(id@) && x@ == id@,
                Some(QuestionEvent::Ask(_)) => false,
                None => !old(self).ids().contains(id@),
            },
    {
        if self.take(id) {
            Some(QuestionEvent::Withdraw(id.to_owned()))
        } else {
            None
        }
    }

    /// Whether somebody waits for the answer to `id`.
    pub fn is_waiting(&self, id: &str) -> (r: bool)
        ensures
            r == self.ids().contains(id@),
    {
        self.position(id) < self.waiting.len()
    }
}

} // verus!
