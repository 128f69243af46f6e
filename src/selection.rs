use vstd::prelude::*;
use crate::message::{ChatCompletion, ChatGPTMessage, Choice};
use crate::prompt::HandlerError;

verus! {

/// Position `k` holds the canonical candidate: its index is the smallest of
/// all, and no earlier candidate has that same index.
pub open spec fn is_canonical(choices: Seq<Choice>, k: int) -> bool {
    &&& 0 <= k < choices.len()
    &&& forall|j: int| 0 <= j < choices.len() ==> choices[k].index <= #[trigger] choices[j].index
    &&& forall|j: int| 0 <= j < k ==> choices[k].index < #[trigger] choices[j].index
}

/// At most one position holds the canonical candidate.
pub proof fn lemma_canonical_unique(choices: Seq<Choice>, k1: int, k2: int)
    requires
        is_canonical(choices, k1),
        is_canonical(choices, k2),
    ensures
        k1 == k2,
{
    if k1 < k2 {
        assert(choices[k2].index < choices[k1].index);
        assert(choices[k2].index <= choices[k1].index);
        assert(choices[k1].index <= choices[k2].index);
    } else if k2 < k1 {
        assert(choices[k1].index < choices[k2].index);
        assert(choices[k2].index <= choices[k1].index);
    }
}

/// The position of the canonical candidate among `choices`, if there is any.
pub fn canonical_position(choices: &Vec<Choice>) -> (r: Option<usize>)
    ensures
        r is None <==> choices@.len() == 0,
        r matches Some(k) ==> is_canonical(choices@, k as int),
{
    if choices.len() == 0 {
        return None;
    }
    let mut best: usize = 0;
    let mut i: usize = 1;
    while i < choices.len()
        invariant
            1 <= i <= choices@.len(),
            best < i,
            forall|j: int| 0 <= j < i ==> choices@[best as int].index <= #[trigger] choices@[j].index,
            forall|j: int| 0 <= j < best ==> choices@[best as int].index < #[trigger] choices@[j].index,
        decreases choices@.len() - i,
    {
        if choices[i].index < choices[best].index {
            best = i;
        }
        i = i + 1;
    }
    Some(best)
}

/// The message of the candidate with the smallest index; where several share
/// it, the first of them. Fails with `EmptyResponse` exactly when there is no
/// candidate.
pub fn first_choice(chat_completion: ChatCompletion) -> (r: Result<ChatGPTMessage, HandlerError>)
    ensures
        r is Err <==> chat_completion.choices@.len() == 0,
        r matches Err(e) ==> e == HandlerError::EmptyResponse,
        r matches Ok(m) ==> exists|k: int|
            is_canonical(chat_completion.choices@, k) && m == #[trigger] chat_completion.choices@[k].message,
{
    let ghost choices = chat_completion.choices@;
    let mut all = chat_completion.choices;
    match canonical_position(&all) {
        None => Err(HandlerError::EmptyResponse),
        Some(k) => {
            let chosen = all.remove(k);
            assert(chosen == choices[k as int]);
            Ok(chosen.message)
        },
    }
}

} // verus!
