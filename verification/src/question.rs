//! Question records and the draft value a write request carries.

use vstd::prelude::*;

verus! {

/// Identity of a stored question.
#[derive(Debug, PartialEq, Eq, Hash, Clone, Copy)]
pub struct QuestionId(pub i32);

/// A stored question record.
#[derive(Debug)]
pub struct Question {
    /// Identity assigned by the store (or supplied by the caller).
    pub id: QuestionId,
    /// Title of the question.
    pub title: String,
    /// Body text of the question.
    pub content: String,
    /// Optional tags attached to the question.
    pub tags: Option<Vec<String>>,
}

/// A question as a write request submits it: the store assigns the identity.
#[derive(Debug)]
pub struct NewQuestion {
    /// Title of the question.
    pub title: String,
    /// Body text of the question.
    pub content: String,
    /// Optional tags attached to the question.
    pub tags: Option<Vec<String>>,
}

/// Mathematical model of a question record.
pub ghost struct QuestionModel {
    pub id: int,
    pub title: Seq<char>,
    pub content: Seq<char>,
    pub tags: Option<Seq<Seq<char>>>,
}

impl View for Question {
    type V = QuestionModel;

    open spec fn view(&self) -> QuestionModel {
        QuestionModel {
            id: self.id.0 as int,
            title: self.title@,
            content: self.content@,
            tags: self.tags.deep_view(),
        }
    }
}

impl View for NewQuestion {
    type V = QuestionModel;

    open spec fn view(&self) -> QuestionModel {
        QuestionModel {
            id: 0,
            title: self.title@,
            content: self.content@,
            tags: self.tags.deep_view(),
        }
    }
}

/// Copies an optional list of tags; the copy carries the same strings.
pub fn clone_tags(tags: &Option<Vec<String>>) -> (r: Option<Vec<String>>)
    ensures
        r.deep_view() == tags.deep_view(),
{
    match tags {
        None => None,
        Some(v) => {
            let c = v.clone();
            proof {
                assert forall|j: int| 0 <= j < v@.len() implies c@[j] == v@[j] by {
                    assert(cloned::<String>(v[j], c[j]));
                }
                assert(c@ =~= v@);
                assert(c.deep_view() =~= v.deep_view());
            }
            Some(c)
        },
    }
}

impl Clone for Question {
    /// The copy models the same record.
    fn clone(&self) -> (r: Self)
        ensures
            r@ == self@,
    {
        Question {
            id: QuestionId(self.id.0),
            title: self.title.clone(),
            content: self.content.clone(),
            tags: clone_tags(&self.tags),
        }
    }
}

impl Clone for NewQuestion {
    /// The copy models the same draft.
    fn clone(&self) -> (r: Self)
        ensures
            r@ == self@,
    {
        NewQuestion {
            title: self.title.clone(),
            content: self.content.clone(),
            tags: clone_tags(&self.tags),
        }
    }
}

} // verus!
