//! The panel of the side questions: which exchange it shows, and what its keys do.

use crate::btw::{exchanges_view, Exchange, ExchangeView};
use crate::frame_state::BtwState;
use crate::handle::BtwKey;
use crate::text::texts;
use vstd::prelude::*;

verus! {

/// How many of the earlier questions the panel lists.
pub const LISTED: usize = 5;

/// The questions that the panel lists, the latest first.
pub open spec fn listed(exchanges: Seq<ExchangeView>) -> Seq<Seq<char>> {
    let n = exchanges.len();
    Seq::new(
        if n <= LISTED {
            n
        } else {
            LISTED as nat
        },
        |i: int| exchanges[n - 1 - i].question,
    )
}

/// Which exchange is looked at: as many before the latest, as far as there are any.
pub open spec fn looked_at(n: nat, viewing: int) -> int {
    if viewing < n {
        viewing
    } else if n > 0 {
        n - 1
    } else {
        0
    }
}

/// The panel shows one exchange from its first line on, and lists the latest questions.
pub open spec fn shows_exchange(
    exchanges: Seq<ExchangeView>,
    viewing: int,
    p: BtwState,
) -> bool {
    let n = exchanges.len();
    let v = looked_at(n, viewing);
    &&& p.viewing == v
    &&& p.scroll == 0
    &&& !p.streaming
    &&& texts(p.earlier@) == listed(exchanges)
    &&& p.older == if n <= LISTED {
        0
    } else {
        n - LISTED
    }
    &&& p.question@ == if n > 0 {
        exchanges[n - 1 - v].question
    } else {
        Seq::<char>::empty()
    }
    &&& p.answer@ == if n > 0 {
        exchanges[n - 1 - v].answer
    } else {
        Seq::<char>::empty()
    }
}

/// Makes a panel that shows an exchange, counted from the latest on.
pub fn show(exchanges: &Vec<Exchange>, viewing: usize) -> (p: BtwState)
    ensures
        shows_exchange(exchanges_view(exchanges@), viewing as int, p),
{
    let n: usize = exchanges.len();
    let viewing: usize = if viewing < n {
        viewing
    } else if n > 0 {
        n - 1
    } else {
        0
    };
    let count: usize = if n <= LISTED {
        n
    } else {
        LISTED
    };
    let mut earlier: Vec<String> = Vec::new();
    let mut i: usize = 0;
    while i < count
        invariant
            i <= count <= n == exchanges@.len(),
            earlier@.len() == i,
            forall|j: int|
                0 <= j < i ==> (#[trigger] earlier@[j])@ == exchanges@[n - 1 - j].question@,
        decreases count - i,
    {
        earlier.push(exchanges[n - 1 - i].question.clone());
        i += 1;
    }
    assert(texts(earlier@) =~= listed(exchanges_view(exchanges@)));
    let (question, answer) = if n > 0 {
        let e: &Exchange = &exchanges[n - 1 - viewing];
        (e.question.clone(), e.answer.clone())
    } else {
        (String::new(), String::new())
    };
    BtwState {
        question,
        answer,
        streaming: false,
        scroll: 0,
        earlier,
        older: n - count,
        viewing,
    }
}

/// Puts the question that is being answered into an open panel, with what there is of its
/// answer. The rest of the panel stays.
pub fn put(panel: &mut BtwState, question: String, answer: String, streaming: bool)
    ensures
        *final(panel) == (BtwState { question, answer, streaming, ..*old(panel) }),
{
    panel.question = question;
    panel.answer = answer;
    panel.streaming = streaming;
}

/// A line number moved by so many lines, inside what a number can hold.
pub open spec fn scrolled(scroll: int, delta: int) -> int {
    if scroll + delta < 0 {
        0
    } else if scroll + delta > usize::MAX {
        usize::MAX as int
    } else {
        scroll + delta
    }
}

/// What a key does to an open panel; `None` closes it.
pub open spec fn keyed(
    p: BtwState,
    key: BtwKey,
    exchanges: Seq<ExchangeView>,
    r: Option<BtwState>,
) -> bool {
    match key {
        BtwKey::Scroll(delta) => r == Some(
            BtwState { scroll: scrolled(p.scroll as int, delta as int) as usize, ..p },
        ),
        BtwKey::Older => r matches Some(q) && shows_exchange(exchanges, p.viewing + 1, q),
        BtwKey::Newer => r matches Some(q) && shows_exchange(
            exchanges,
            if p.viewing > 0 {
                p.viewing - 1
            } else {
                0
            },
            q,
        ),
        BtwKey::ClearEarlier => {
            &&& r matches Some(q)
            &&& q.earlier@.len() == 0
            &&& q == (BtwState { earlier: q.earlier, older: 0, viewing: 0, ..p })
        },
        BtwKey::Close => r is None,
    }
}

/// Takes a key for an open panel.
pub fn press(panel: BtwState, key: BtwKey, exchanges: &Vec<Exchange>) -> (r: Option<BtwState>)
    ensures
        keyed(panel, key, exchanges_view(exchanges@), r),
{
    let mut panel = panel;
    match key {
        BtwKey::Scroll(delta) => {
            panel.scroll = if delta >= 0 {
                panel.scroll.saturating_add(delta as usize)
            } else {
                // One less than the way back, which is a number in any case.
                let back: usize = (-(delta + 1)) as usize;
                if panel.scroll > back {
                    panel.scroll - back - 1
                } else {
                    0
                }
            };
            Some(panel)
        },
        BtwKey::Older => {
            let last: usize = exchanges.len();
            Some(
                show(
                    exchanges,
                    if panel.viewing < last {
                        panel.viewing + 1
                    } else {
                        last
                    },
                ),
            )
        },
        BtwKey::Newer => Some(
            show(
                exchanges,
                if panel.viewing > 0 {
                    panel.viewing - 1
                } else {
                    0
                },
            ),
        ),
        BtwKey::ClearEarlier => {
            panel.earlier = Vec::new();
            panel.older = 0;
            panel.viewing = 0;
            Some(panel)
        },
        BtwKey::Close => None,
    }
}

/// A step to an earlier exchange and one back lead to the exchange that was shown.
pub proof fn law_newer_undoes_older(
    exchanges: Seq<ExchangeView>,
    p: BtwState,
    older: BtwState,
    newer: BtwState,
)
    requires
        p.viewing + 1 < exchanges.len(),
        shows_exchange(exchanges, p.viewing as int, p),
        keyed(p, BtwKey::Older, exchanges, Some(older)),
        keyed(older, BtwKey::Newer, exchanges, Some(newer)),
    ensures
        newer.viewing == p.viewing,
        newer.question@ == p.question@,
        newer.answer@ == p.answer@,
{
}

} // verus!
