//! The persistence store: an in-process table of questions and answers in
//! stable insertion order. It is the sole writer of record — every mutation
//! passes through its operations — and every operation either returns a
//! domain value or one storage failure, never both, never neither.
//!
//! Identities are unique: the store assigns fresh ones itself, and a write
//! that supplies its own colliding identity fails with a provider-style
//! error whose code is the canonical unique-violation code.

use vstd::prelude::*;

use crate::answer::{Answer, AnswerId, AnswerModel, NewAnswer};
use crate::error::{spec_classify, DbError, Error, StorageErrorClass};
use crate::question::{Question, QuestionId, QuestionModel, NewQuestion};

verus! {

/// The models of a sequence of question records.
pub open spec fn q_models(qs: Seq<Question>) -> Seq<QuestionModel> {
    qs.map_values(|q: Question| q@)
}

/// The models of a sequence of answer records.
pub open spec fn a_models(ans: Seq<Answer>) -> Seq<AnswerModel> {
    ans.map_values(|a: Answer| a@)
}

/// True when some question in the sequence carries this identity.
pub open spec fn contains_qid(qs: Seq<QuestionModel>, id: int) -> bool {
    exists|i: int| 0 <= i < qs.len() && #[trigger] qs[i].id == id
}

/// Both pagination bounds are non-negative.
pub open spec fn valid_window(limit: Option<i32>, offset: i32) -> bool {
    offset >= 0 && match limit {
        Some(l) => l >= 0,
        None => true,
    }
}

/// The slice a pagination window selects from the stable ordering: at most
/// `limit` records (all of them when absent) starting at `offset`; an offset
/// at or past the end selects nothing.
pub open spec fn spec_page(qs: Seq<QuestionModel>, limit: Option<i32>, offset: i32) -> Seq<
    QuestionModel,
> {
    if offset >= qs.len() {
        Seq::empty()
    } else {
        let rest = qs.skip(offset as int);
        match limit {
            None => rest,
            Some(l) => if l as int <= rest.len() {
                rest.take(l as int)
            } else {
                rest
            },
        }
    }
}

/// The sequence with the record under `id` replaced by `m` and every other
/// record kept in place.
pub open spec fn spec_replace(qs: Seq<QuestionModel>, id: int, m: QuestionModel) -> Seq<
    QuestionModel,
> {
    qs.map_values(|q: QuestionModel| if q.id == id { m } else { q })
}

/// The sequence with every record under `id` removed and the order of the
/// rest kept.
pub open spec fn spec_remove(qs: Seq<QuestionModel>, id: int) -> Seq<QuestionModel> {
    qs.filter(|q: QuestionModel| q.id != id)
}

/// The in-process persistence store.
#[derive(Debug)]
pub struct Store {
    questions: Vec<Question>,
    answers: Vec<Answer>,
    next_question_id: i32,
    next_answer_id: i32,
}

impl Store {
    /// The questions the store holds, in stable insertion order.
    pub closed spec fn spec_questions(self) -> Seq<QuestionModel> {
        q_models(self.questions@)
    }

    /// The answers the store holds, in stable insertion order.
    pub closed spec fn spec_answers(self) -> Seq<AnswerModel> {
        a_models(self.answers@)
    }

    /// The identity the next stored question receives.
    pub closed spec fn spec_next_question_id(self) -> int {
        self.next_question_id as int
    }

    /// The identity the next stored answer receives.
    pub closed spec fn spec_next_answer_id(self) -> int {
        self.next_answer_id as int
    }

    /// Identities are unique and lie below the next fresh one. Constructors
    /// establish this well-formedness and every operation preserves it.
    pub closed spec fn wf(self) -> bool {
        &&& forall|i: int, j: int|
            0 <= i < j < self.spec_questions().len() ==> #[trigger] self.spec_questions()[i].id
                != #[trigger] self.spec_questions()[j].id
        &&& forall|i: int|
            0 <= i < self.spec_questions().len() ==> #[trigger] self.spec_questions()[i].id
                < self.spec_next_question_id()
        &&& forall|i: int, j: int|
            0 <= i < j < self.spec_answers().len() ==> #[trigger] self.spec_answers()[i].id
                != #[trigger] self.spec_answers()[j].id
        &&& forall|i: int|
            0 <= i < self.spec_answers().len() ==> #[trigger] self.spec_answers()[i].id
                < self.spec_next_answer_id()
    }

    /// Creates an empty store.
    pub fn new() -> (s: Store)
        ensures
            s.spec_questions() == Seq::<QuestionModel>::empty(),
            s.spec_answers() == Seq::<AnswerModel>::empty(),
            s.spec_next_question_id() == 1,
            s.spec_next_answer_id() == 1,
            s.wf(),
    {
        let s = Store {
            questions: Vec::new(),
            answers: Vec::new(),
            next_question_id: 1,
            next_answer_id: 1,
        };
        proof {
            assert(s.spec_questions() =~= Seq::<QuestionModel>::empty());
            assert(s.spec_answers() =~= Seq::<AnswerModel>::empty());
        }
        s
    }

    /// Returns at most `limit` questions (all of them when absent) starting
    /// at `offset` in the stable ordering. An offset at or past the end
    /// yields an empty sequence, not a failure; a negative bound is the one
    /// storage failure this read can report.
    #[verifier::loop_isolation(false)]
    pub fn get_questions(&self, limit: Option<i32>, offset: i32) -> (r: Result<Vec<Question>, Error>)
        ensures
            r is Ok <==> valid_window(limit, offset),
            match r {
                Ok(v) => {
                    &&& v@.map_values(|q: Question| q@) == spec_page(
                        self.spec_questions(),
                        limit,
                        offset,
                    )
                    &&& (match limit {
                        Some(l) => v@.len() <= l,
                        None => true,
                    })
                    &&& (offset >= self.spec_questions().len() ==> v@.len() == 0)
                    &&& (offset < self.spec_questions().len() && (match limit {
                        Some(l) => l > 0,
                        None => true,
                    }) ==> v@.len() > 0 && v@[0]@ == self.spec_questions()[offset as int])
                },
                Err(e) => match e {
                    Error::DatabaseQueryError(db) => db@.code is None && db@.message == (
                    if offset < 0 {
                        "OFFSET must not be negative"@
                    } else {
                        "LIMIT must not be negative"@
                    }),
                    _ => false,
                },
            },
    {
        if offset < 0 {
            return Err(
                Error::DatabaseQueryError(
                    DbError { code: None, message: String::from_str("OFFSET must not be negative") },
                ),
            );
        }
        if let Some(l) = limit {
            if l < 0 {
                return Err(
                    Error::DatabaseQueryError(
                        DbError {
                            code: None,
                            message: String::from_str("LIMIT must not be negative"),
                        },
                    ),
                );
            }
        }
        let ghost qs = self.spec_questions();
        let len = self.questions.len();
        let start: usize = if (offset as usize) <= len {
            offset as usize
        } else {
            len
        };
        let end: usize = match limit {
            None => len,
            Some(l) => {
                let avail = len - start;
                if (l as usize) <= avail {
                    start + (l as usize)
                } else {
                    len
                }
            },
        };
        let mut out: Vec<Question> = Vec::new();
        let mut i: usize = start;
        proof {
            assert(out@.map_values(|q: Question| q@) =~= qs.subrange(start as int, start as int));
        }
        while i < end
            invariant
                start <= i <= end <= len,
                out@.map_values(|q: Question| q@) == qs.subrange(start as int, i as int),
            decreases end - i,
        {
            let ghost prev = out@;
            let q = self.questions[i].clone();
            out.push(q);
            proof {
                assert(out@.map_values(|q: Question| q@) =~= prev.map_values(
                    |q: Question| q@,
                ).push(qs[i as int]));
                assert(qs.subrange(start as int, i as int).push(qs[i as int]) =~= qs.subrange(
                    start as int,
                    i + 1,
                ));
            }
            i = i + 1;
        }
        proof {
            assert(qs.subrange(start as int, end as int) =~= spec_page(qs, limit, offset));
            if start < end {
                assert(out@.map_values(|q: Question| q@)[0] == out@[0]@);
            }
        }
        Ok(out)
    }

    /// Assigns the next fresh identity, persists the question, and returns
    /// the stored record. The one failure is exhaustion of the identity
    /// space.
    pub fn add_question(&mut self, new_question: NewQuestion) -> (r: Result<Question, Error>)
        requires
            old(self).wf(),
        ensures
            final(self).wf(),
            r is Ok <==> old(self).spec_next_question_id() < i32::MAX,
            r matches Ok(q) ==> {
                &&& q@.id == old(self).spec_next_question_id()
                &&& q@.title == new_question@.title
                &&& q@.content == new_question@.content
                &&& q@.tags == new_question@.tags
                &&& final(self).spec_questions() == old(self).spec_questions().push(q@)
                &&& final(self).spec_next_question_id() == old(self).spec_next_question_id() + 1
                &&& final(self).spec_answers() == old(self).spec_answers()
                &&& final(self).spec_next_answer_id() == old(self).spec_next_answer_id()
            },
            r is Err ==> *final(self) == *old(self),
            match r {
                Ok(_) => true,
                Err(e) => match e {
                    Error::DatabaseQueryError(db) => db@.code is None && db@.message
                        == "identifier space exhausted"@,
                    _ => false,
                },
            },
    {
        if self.next_question_id == i32::MAX {
            return Err(
                Error::DatabaseQueryError(
                    DbError { code: None, message: String::from_str("identifier space exhausted") },
                ),
            );
        }
        let id = self.next_question_id;
        let q = Question {
            id: QuestionId(id),
            title: new_question.title,
            content: new_question.content,
            tags: new_question.tags,
        };
        let ret = q.clone();
        self.questions.push(q);
        self.next_question_id = id + 1;
        proof {
            assert(self.spec_questions() =~= old(self).spec_questions().push(ret@));
            assert(self.spec_answers() =~= old(self).spec_answers());
            let qs = self.spec_questions();
            let n = qs.len() - 1;
            assert forall|i: int, j: int| 0 <= i < j < qs.len() implies #[trigger] qs[i].id
                != #[trigger] qs[j].id by {
                if j == n {
                    assert(old(self).spec_questions()[i].id < old(self).spec_next_question_id());
                }
            }
            assert forall|i: int| 0 <= i < qs.len() implies #[trigger] qs[i].id
                < self.spec_next_question_id() by {
                if i < n {
                    assert(old(self).spec_questions()[i].id < old(self).spec_next_question_id());
                }
            }
        }
        Ok(ret)
    }

    /// Persists a question under a caller-supplied identity. A colliding
    /// identity fails with a duplicate-key storage failure and leaves the
    /// store unchanged; otherwise the record is appended and the next fresh
    /// identity stays above every stored one.
    #[verifier::loop_isolation(false)]
    pub fn add_question_with_id(&mut self, id: i32, new_question: NewQuestion) -> (r: Result<
        Question,
        Error,
    >)
        requires
            old(self).wf(),
        ensures
            final(self).wf(),
            r is Ok <==> !contains_qid(old(self).spec_questions(), id as int) && id < i32::MAX,
            r matches Ok(q) ==> {
                &&& q@.id == id as int
                &&& q@.title == new_question@.title
                &&& q@.content == new_question@.content
                &&& q@.tags == new_question@.tags
                &&& final(self).spec_questions() == old(self).spec_questions().push(q@)
                &&& final(self).spec_answers() == old(self).spec_answers()
                &&& final(self).spec_next_answer_id() == old(self).spec_next_answer_id()
            },
            r is Err ==> *final(self) == *old(self),
            contains_qid(old(self).spec_questions(), id as int) ==> (match r {
                Err(Error::DatabaseQueryError(db)) => db@.code == Some("23505"@) && db@.message
                    == "duplicate key value violates unique constraint"@ && spec_classify(
                    db@.code,
                ) == StorageErrorClass::DuplicateKey,
                _ => false,
            }),
            !contains_qid(old(self).spec_questions(), id as int) && id == i32::MAX ==> (match r {
                Err(Error::DatabaseQueryError(db)) => db@.code is None && db@.message
                    == "identifier space exhausted"@,
                _ => false,
            }),
    {
        let ghost qs = self.spec_questions();
        let n = self.questions.len();
        let mut i: usize = 0;
        while i < n
            invariant
                i <= n,
                forall|k: int| 0 <= k < i ==> #[trigger] qs[k].id != id as int,
            decreases n - i,
        {
            if self.questions[i].id.0 == id {
                proof {
                    assert(qs[i as int].id == id as int);
                    crate::error::lemma_duplicate_code_classifies();
                }
                return Err(
                    Error::DatabaseQueryError(
                        DbError {
                            code: Some(String::from_str("23505")),
                            message: String::from_str(
                                "duplicate key value violates unique constraint",
                            ),
                        },
                    ),
                );
            }
            i = i + 1;
        }
        if id == i32::MAX {
            return Err(
                Error::DatabaseQueryError(
                    DbError { code: None, message: String::from_str("identifier space exhausted") },
                ),
            );
        }
        let q = Question {
            id: QuestionId(id),
            title: new_question.title,
            content: new_question.content,
            tags: new_question.tags,
        };
        let ret = q.clone();
        self.questions.push(q);
        if self.next_question_id <= id {
            self.next_question_id = id + 1;
        }
        proof {
            assert(self.spec_questions() =~= old(self).spec_questions().push(ret@));
            assert(self.spec_answers() =~= old(self).spec_answers());
            let new_qs = self.spec_questions();
            let last = new_qs.len() - 1;
            assert forall|a: int, b: int| 0 <= a < b < new_qs.len() implies #[trigger] new_qs[a].id
                != #[trigger] new_qs[b].id by {
                if b == last {
                    assert(qs[a].id != id as int);
                }
            }
            assert forall|a: int| 0 <= a < new_qs.len() implies #[trigger] new_qs[a].id
                < self.spec_next_question_id() by {
                if a < last {
                    assert(old(self).spec_questions()[a].id < old(self).spec_next_question_id());
                }
            }
        }
        Ok(ret)
    }

    /// Replaces title, content and tags of the question under `question_id`
    /// and returns the stored record; an identity that does not exist fails
    /// with a plain storage failure and leaves the store unchanged.
    #[verifier::loop_isolation(false)]
    pub fn update_question(&mut self, question: Question, question_id: i32) -> (r: Result<
        Question,
        Error,
    >)
        requires
            old(self).wf(),
        ensures
            final(self).wf(),
            r is Ok <==> contains_qid(old(self).spec_questions(), question_id as int),
            r matches Ok(q) ==> {
                &&& q@.id == question_id as int
                &&& q@.title == question@.title
                &&& q@.content == question@.content
                &&& q@.tags == question@.tags
                &&& final(self).spec_questions() == spec_replace(
                    old(self).spec_questions(),
                    question_id as int,
                    q@,
                )
                &&& final(self).spec_next_question_id() == old(self).spec_next_question_id()
                &&& final(self).spec_answers() == old(self).spec_answers()
                &&& final(self).spec_next_answer_id() == old(self).spec_next_answer_id()
            },
            r is Err ==> *final(self) == *old(self),
            match r {
                Ok(_) => true,
                Err(e) => match e {
                    Error::DatabaseQueryError(db) => db@.code is None && db@.message
                        == "no question under this id"@,
                    _ => false,
                },
            },
    {
        let ghost qs = self.spec_questions();
        let n = self.questions.len();
        let mut i: usize = 0;
        while i < n && self.questions[i].id.0 != question_id
            invariant
                i <= n,
                forall|k: int| 0 <= k < i ==> #[trigger] qs[k].id != question_id as int,
            decreases n - i,
        {
            i = i + 1;
        }
        if i == n {
            return Err(
                Error::DatabaseQueryError(
                    DbError { code: None, message: String::from_str("no question under this id") },
                ),
            );
        }
        let stored = Question {
            id: QuestionId(question_id),
            title: question.title,
            content: question.content,
            tags: question.tags,
        };
        let ret = stored.clone();
        self.questions.set(i, stored);
        proof {
            assert(qs[i as int].id == question_id as int);
            assert forall|j: int|
                0 <= j < qs.len() && j != i implies #[trigger] qs[j].id != question_id as int by {
                if j < i {
                    assert(qs[j].id != qs[i as int].id);
                } else {
                    assert(qs[i as int].id != qs[j].id);
                }
            }
            assert(self.spec_questions() =~= spec_replace(qs, question_id as int, ret@));
            assert(self.spec_answers() =~= old(self).spec_answers());
            let new_qs = self.spec_questions();
            assert forall|a: int, b: int| 0 <= a < b < new_qs.len() implies #[trigger] new_qs[a].id
                != #[trigger] new_qs[b].id by {
                assert(qs[a].id != qs[b].id);
                assert(new_qs[a].id == qs[a].id && new_qs[b].id == qs[b].id);
            }
            assert forall|a: int| 0 <= a < new_qs.len() implies #[trigger] new_qs[a].id
                < self.spec_next_question_id() by {
                assert(qs[a].id < old(self).spec_next_question_id());
                assert(new_qs[a].id == qs[a].id);
            }
        }
        Ok(ret)
    }

    /// Removes the question under `question_id`, keeping the order of the
    /// rest. Reports success whether or not a record matched: that a delete
    /// of an absent identity still answers `true` is documented behaviour of
    /// this core.
    #[verifier::loop_isolation(false)]
    pub fn delete_question(&mut self, question_id: i32) -> (r: Result<bool, Error>)
        requires
            old(self).wf(),
        ensures
            final(self).wf(),
            r == Ok::<bool, Error>(true),
            final(self).spec_questions() == spec_remove(
                old(self).spec_questions(),
                question_id as int,
            ),
            final(self).spec_next_question_id() == old(self).spec_next_question_id(),
            final(self).spec_answers() == old(self).spec_answers(),
            final(self).spec_next_answer_id() == old(self).spec_next_answer_id(),
    {
        let ghost qs = self.spec_questions();
        let ghost pred = |q: QuestionModel| q.id != question_id as int;
        let n = self.questions.len();
        let mut kept: Vec<Question> = Vec::new();
        let mut i: usize = 0;
        proof {
            reveal(Seq::filter);
            assert(qs.take(0) =~= Seq::<QuestionModel>::empty());
            assert(kept@.map_values(|q: Question| q@) =~= qs.take(0).filter(pred));
        }
        while i < n
            invariant
                i <= n,
                kept@.map_values(|q: Question| q@) == qs.take(i as int).filter(pred),
                forall|a: int|
                    0 <= a < kept@.len() ==> exists|k: int|
                        0 <= k < i && #[trigger] kept@[a]@.id == qs[k].id,
            decreases n - i,
        {
            let ghost prev = kept@;
            let keep = self.questions[i].id.0 != question_id;
            proof {
                reveal(Seq::filter);
                assert(qs.take(i + 1).drop_last() =~= qs.take(i as int));
                assert(qs.take(i + 1).last() == qs[i as int]);
            }
            if keep {
                let q = self.questions[i].clone();
                kept.push(q);
                proof {
                    assert(kept@.map_values(|q: Question| q@) =~= prev.map_values(
                        |q: Question| q@,
                    ).push(qs[i as int]));
                    assert forall|a: int| 0 <= a < kept@.len() implies exists|k: int|
                        0 <= k < i + 1 && #[trigger] kept@[a]@.id == qs[k].id by {
                        if a < prev.len() {
                            assert(kept@[a] == prev[a]);
                        } else {
                            assert(kept@[a]@.id == qs[i as int].id);
                        }
                    }
                }
            }
            i = i + 1;
        }
        proof {
            assert(qs.take(n as int) =~= qs);
        }
        self.questions = kept;
        proof {
            assert(self.spec_answers() =~= old(self).spec_answers());
            let new_qs = self.spec_questions();
            assert forall|a: int, b: int| 0 <= a < b < new_qs.len() implies #[trigger] new_qs[a].id
                != #[trigger] new_qs[b].id by {
                lemma_filter_ordered_distinct(qs, pred, a, b);
            }
            assert forall|a: int| 0 <= a < new_qs.len() implies #[trigger] new_qs[a].id
                < self.spec_next_question_id() by {
                assert(exists|k: int| 0 <= k < n && #[trigger] new_qs[a].id == qs[k].id);
                let k = choose|k: int| 0 <= k < n && #[trigger] new_qs[a].id == qs[k].id;
                assert(qs[k].id < old(self).spec_next_question_id());
            }
        }
        Ok(true)
    }

    /// Assigns the next fresh identity, persists the answer, and returns the
    /// stored record. The referenced question is not checked to exist: a
    /// documented invariant gap of this core. The one failure is exhaustion
    /// of the identity space.
    pub fn add_answer(&mut self, new_answer: NewAnswer) -> (r: Result<Answer, Error>)
        requires
            old(self).wf(),
        ensures
            final(self).wf(),
            r is Ok <==> old(self).spec_next_answer_id() < i32::MAX,
            r matches Ok(a) ==> {
                &&& a@.id == old(self).spec_next_answer_id()
                &&& a@.content == new_answer@.content
                &&& a@.question_id == new_answer@.question_id
                &&& final(self).spec_answers() == old(self).spec_answers().push(a@)
                &&& final(self).spec_next_answer_id() == old(self).spec_next_answer_id() + 1
                &&& final(self).spec_questions() == old(self).spec_questions()
                &&& final(self).spec_next_question_id() == old(self).spec_next_question_id()
            },
            r is Err ==> *final(self) == *old(self),
            match r {
                Ok(_) => true,
                Err(e) => match e {
                    Error::DatabaseQueryError(db) => db@.code is None && db@.message
                        == "identifier space exhausted"@,
                    _ => false,
                },
            },
    {
        if self.next_answer_id == i32::MAX {
            return Err(
                Error::DatabaseQueryError(
                    DbError { code: None, message: String::from_str("identifier space exhausted") },
                ),
            );
        }
        let id = self.next_answer_id;
        let a = Answer {
            id: AnswerId(id),
            content: new_answer.content,
            question_id: new_answer.question_id,
        };
        let ret = a.clone();
        self.answers.push(a);
        self.next_answer_id = id + 1;
        proof {
            assert(self.spec_answers() =~= old(self).spec_answers().push(ret@));
            assert(self.spec_questions() =~= old(self).spec_questions());
            let ans = self.spec_answers();
            let n = ans.len() - 1;
            assert forall|i: int, j: int| 0 <= i < j < ans.len() implies #[trigger] ans[i].id
                != #[trigger] ans[j].id by {
                if j == n {
                    assert(old(self).spec_answers()[i].id < old(self).spec_next_answer_id());
                }
            }
            assert forall|i: int| 0 <= i < ans.len() implies #[trigger] ans[i].id
                < self.spec_next_answer_id() by {
                if i < n {
                    assert(old(self).spec_answers()[i].id < old(self).spec_next_answer_id());
                }
            }
        }
        Ok(ret)
    }
}

/// Every position of a filtered sequence holds an element of the original.
proof fn lemma_filter_from(s: Seq<QuestionModel>, pred: spec_fn(QuestionModel) -> bool, a: int)
    requires
        0 <= a < s.filter(pred).len(),
    ensures
        exists|k: int| 0 <= k < s.len() && s.filter(pred)[a] == #[trigger] s[k],
    decreases s.len(),
{
    reveal(Seq::filter);
    if s.len() > 0 {
        let rest = s.drop_last();
        let f = s.filter(pred);
        if pred(s.last()) && a == f.len() - 1 {
            assert(f[a] == s[s.len() - 1]);
        } else {
            lemma_filter_from(rest, pred, a);
            let k = choose|k: int| 0 <= k < rest.len() && rest.filter(pred)[a] == #[trigger] rest[k];
            assert(s[k] == rest[k]);
            assert(f[a] == rest.filter(pred)[a]);
        }
    }
}

/// Two positions of a filtered sequence carry distinct identities whenever
/// the original's identities are pairwise distinct.
proof fn lemma_filter_ordered_distinct(
    s: Seq<QuestionModel>,
    pred: spec_fn(QuestionModel) -> bool,
    a: int,
    b: int,
)
    requires
        0 <= a < b < s.filter(pred).len(),
        forall|i: int, j: int| 0 <= i < j < s.len() ==> #[trigger] s[i].id != #[trigger] s[j].id,
    ensures
        s.filter(pred)[a].id != s.filter(pred)[b].id,
    decreases s.len(),
{
    reveal(Seq::filter);
    if s.len() > 0 {
        let rest = s.drop_last();
        let f = s.filter(pred);
        if pred(s.last()) && b == f.len() - 1 {
            lemma_filter_from(rest, pred, a);
            let k = choose|k: int| 0 <= k < rest.len() && rest.filter(pred)[a] == #[trigger] rest[k];
            assert(s[k] == rest[k]);
            assert(f[a] == rest.filter(pred)[a]);
            assert(s[k].id != s[s.len() - 1].id);
        } else {
            lemma_filter_ordered_distinct(rest, pred, a, b);
            assert(f[a] == rest.filter(pred)[a]);
            assert(f[b] == rest.filter(pred)[b]);
        }
    }
}

/// Repeated listings with identical arguments and no intervening writes
/// return identical sequences: the page a window selects is a function of
/// the stable ordering and the window alone.
pub proof fn lemma_list_questions_idempotent(
    qs: Seq<QuestionModel>,
    limit: Option<i32>,
    offset: i32,
    r1: Seq<QuestionModel>,
    r2: Seq<QuestionModel>,
)
    requires
        r1 == spec_page(qs, limit, offset),
        r2 == spec_page(qs, limit, offset),
    ensures
        r1 == r2,
{
}

} // verus!
