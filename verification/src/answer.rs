//! Answer records and the draft value a write request carries.

use vstd::prelude::*;

use crate::question::QuestionId;

verus! {

/// Identity of a stored answer.
#[derive(Debug, PartialEq, Eq, Hash, Clone, Copy)]
pub struct AnswerId(pub i32);

/// A stored answer record. The question reference is not validated for
/// existence at write time: that is a documented invariant gap of this core.
#[derive(Debug)]
pub struct Answer {
    /// Identity assigned by the store.
    pub id: AnswerId,
    /// Body text of the answer.
    pub content: String,
    /// Identity of the question the answer belongs to.
    pub question_id: QuestionId,
}

/// An answer as a write request submits it: the store assigns the identity.
#[derive(Debug)]
pub struct NewAnswer {
    /// Body text of the answer.
    pub content: String,
    /// Identity of the question the answer belongs to.
    pub question_id: QuestionId,
}

/// Mathematical model of an answer record.
pub ghost struct AnswerModel {
    pub id: int,
    pub content: Seq<char>,
    pub question_id: int,
}

impl View for Answer {
    type V = AnswerModel;

    open spec fn view(&self) -> AnswerModel {
        AnswerModel {
            id: self.id.0 as int,
            content: self.content@,
            question_id: self.question_id.0 as int,
        }
    }
}

impl View for NewAnswer {
    type V = AnswerModel;

    open spec fn view(&self) -> AnswerModel {
        AnswerModel { id: 0, content: self.content@, question_id: self.question_id.0 as int }
    }
}

impl Clone for Answer {
    /// The copy models the same record.
    fn clone(&self) -> (r: Self)
        ensures
            r@ == self@,
    {
        Answer {
            id: AnswerId(self.id.0),
            content: self.content.clone(),
            question_id: QuestionId(self.question_id.0),
        }
    }
}

impl Clone for NewAnswer {
    /// The copy models the same draft.
    fn clone(&self) -> (r: Self)
        ensures
            r@ == self@,
    {
        NewAnswer { content: self.content.clone(), question_id: QuestionId(self.question_id.0) }
    }
}

} // verus!
