//! A storage that answers as it is told to.
use crate::error::{CauseView, ErrorChain};
use crate::outside::{
    answer_queue, bytes_contents, nanos, queued, receive_answer, send_answer, AnswerQueue,
};
use crate::storage::{Cache, CacheMode, PreprocessorCacheMode, Storage};
use bytes::Bytes;
use std::time::Duration;
use vstd::prelude::*;

verus! {

/// A mock `Storage` implementation.
pub struct MockStorage {
    answers: AnswerQueue,
    delay: Option<Duration>,
    preprocessor_cache_mode: bool,
    check_error: Option<&'static str>,
    raw_read: Result<Option<Bytes>, &'static str>,
}

/// What an operation of a [`MockStorage`] comes to, and how long it has to wait
/// before it returns.
#[derive(Debug)]
pub struct Delayed<T> {
    pub wait: Option<Duration>,
    pub outcome: T,
}

/// What a [`MockStorage`] has been told.
pub struct MockView {
    /// The results of the next look-ups, the next one first.
    pub answers: Seq<Result<Cache<Bytes>, ErrorChain>>,
    pub delay: Option<Duration>,
    pub preprocessor_cache_mode: bool,
    pub check_error: Option<Seq<char>>,
    pub raw_read: Result<Option<Seq<u8>>, Seq<char>>,
}

impl View for MockStorage {
    type V = MockView;

    closed spec fn view(&self) -> MockView {
        MockView {
            answers: queued(self.answers),
            delay: self.delay,
            preprocessor_cache_mode: self.preprocessor_cache_mode,
            check_error: match self.check_error {
                Some(error) => Some(error@),
                None => None,
            },
            raw_read: match self.raw_read {
                Ok(Some(bytes)) => Ok(Some(bytes_contents(bytes))),
                Ok(None) => Ok(None),
                Err(error) => Err(error@),
            },
        }
    }
}

impl MockStorage {
    /// Create a new `MockStorage`. if `delay` is `Some`, wait for that amount of time before returning from operations.
    pub fn new(delay: Option<Duration>, preprocessor_cache_mode: bool) -> (mock: MockStorage)
        ensures
            mock@ == (MockView {
                answers: Seq::empty(),
                delay,
                preprocessor_cache_mode,
                check_error: None,
                raw_read: Ok(None),
            }),
    {
        let answers = answer_queue();
        assert(queued(answers) =~= Seq::empty());
        MockStorage {
            answers,
            delay,
            preprocessor_cache_mode,
            check_error: None,
            raw_read: Ok(None),
        }
    }

    /// Queue up `res` to be returned as the next result from [`MockStorage::get`].
    pub fn next_get(&mut self, res: Result<Cache<Bytes>, ErrorChain>)
        requires
            old(self)@.answers.len() < usize::MAX / 2,
        ensures
            final(self)@ == (MockView { answers: old(self)@.answers.push(res), ..old(self)@ }),
    {
        send_answer(&mut self.answers, res);
    }

    /// Have every check fail with this text.
    pub fn with_check_error(self, error: &'static str) -> (mock: MockStorage)
        ensures
            mock@ == (MockView { check_error: Some(error@), ..self@ }),
    {
        let mut mock = self;
        mock.check_error = Some(error);
        mock
    }

    /// Have every raw read fail with this text.
    pub fn with_raw_read_error(self, error: &'static str) -> (mock: MockStorage)
        ensures
            mock@ == (MockView { raw_read: Err(error@), ..self@ }),
    {
        let mut mock = self;
        mock.raw_read = Err(error);
        mock
    }

    /// Have every raw read find these bytes.
    pub fn with_raw_read_bytes(self, bytes: Bytes) -> (mock: MockStorage)
        ensures
            mock@ == (MockView { raw_read: Ok(Some(bytes_contents(bytes))), ..self@ }),
    {
        let mut mock = self;
        mock.raw_read = Ok(Some(bytes));
        mock
    }

    /// How long to wait before any operation returns.
    pub fn delay(&self) -> (delay: Option<Duration>)
        ensures
            delay == self@.delay,
    {
        self.delay
    }

    /// The result of a raw read.
    pub fn get_raw(&self) -> (entry: Delayed<Result<Option<Bytes>, ErrorChain>>)
        ensures
            entry.wait == self@.delay,
            match self@.raw_read {
                Ok(Some(contents)) => entry.outcome matches Ok(Some(bytes)) && bytes_contents(bytes)
                    == contents,
                Ok(None) => entry.outcome == Ok::<Option<Bytes>, ErrorChain>(None),
                Err(text) => entry.outcome is Err && entry.outcome->Err_0@ == seq![
                    CauseView::Other(text),
                ],
            },
    {
        let outcome = match &self.raw_read {
            Ok(Some(bytes)) => Ok(Some(bytes.clone())),
            Ok(None) => Ok(None),
            Err(error) => Err(ErrorChain::message(error)),
        };
        Delayed { wait: self.delay, outcome }
    }

    /// The result of a capability check.
    pub fn check(&self) -> (mode: Delayed<Result<CacheMode, ErrorChain>>)
        ensures
            mode.wait == self@.delay,
            match self@.check_error {
                Some(text) => mode.outcome is Err && mode.outcome->Err_0@ == seq![
                    CauseView::Other(text),
                ],
                None => mode.outcome == Ok::<CacheMode, ErrorChain>(CacheMode::ReadWrite),
            },
    {
        let outcome = match self.check_error {
            Some(error) => Err(ErrorChain::message(error)),
            None => Ok(CacheMode::ReadWrite),
        };
        Delayed { wait: self.delay, outcome }
    }

    /// The result of the next look-up, if one has been queued up.
    pub fn next_answer(&mut self) -> (answer: Delayed<Option<Result<Cache<Bytes>, ErrorChain>>>)
        ensures
            answer.wait == old(self)@.delay,
            match answer.outcome {
                Some(answer) => {
                    &&& old(self)@.answers.len() > 0
                    &&& answer == old(self)@.answers[0]
                    &&& final(self)@ == (MockView {
                        answers: old(self)@.answers.drop_first(),
                        ..old(self)@
                    })
                },
                None => old(self)@.answers.len() == 0 && final(self)@ == old(self)@,
            },
    {
        let outcome = receive_answer(&mut self.answers);
        proof {
            if outcome is Some {
                assert(queued(self.answers) =~= old(self)@.answers.drop_first());
            } else {
                assert(queued(self.answers) =~= old(self)@.answers);
            }
        }
        Delayed { wait: self.delay, outcome }
    }

    /// The result of the next look-up. One has to be queued up.
    pub fn get(&mut self) -> (answer: Delayed<Result<Cache<Bytes>, ErrorChain>>)
        requires
            old(self)@.answers.len() > 0,
        ensures
            answer.wait == old(self)@.delay,
            answer.outcome == old(self)@.answers[0],
            final(self)@ == (MockView {
                answers: old(self)@.answers.drop_first(),
                ..old(self)@
            }),
    {
        let answer = self.next_answer();
        Delayed { wait: answer.wait, outcome: answer.outcome.unwrap() }
    }

    /// The time that a write took: the time that it was made to wait.
    pub fn put(&self) -> (duration: Delayed<Result<Duration, ErrorChain>>)
        ensures
            duration.wait == self@.delay,
            match self@.delay {
                Some(delay) => duration.outcome == Ok::<Duration, ErrorChain>(delay),
                None => duration.outcome is Ok && nanos(duration.outcome->Ok_0) == 0,
            },
    {
        let outcome = Ok(
            match self.delay {
                Some(delay) => delay,
                None => Duration::from_secs(0),
            },
        );
        Delayed { wait: self.delay, outcome }
    }
}

impl Storage for MockStorage {
    type MultiLevelStats = ();

    type PreprocessorRead = ();

    type PreprocessorEntry = ();

    fn location(&self) -> (text: String)
        ensures
            text@ == "Mock Storage"@,
    {
        "Mock Storage".to_owned()
    }

    fn current_size(&self) -> (size: Result<Option<u64>, ErrorChain>)
        ensures
            size == Ok::<Option<u64>, ErrorChain>(None),
    {
        Ok(None)
    }

    fn max_size(&self) -> (size: Result<Option<u64>, ErrorChain>)
        ensures
            size == Ok::<Option<u64>, ErrorChain>(None),
    {
        Ok(None)
    }

    fn preprocessor_cache_mode_config(&self) -> (mode: PreprocessorCacheMode)
        ensures
            mode == PreprocessorCacheMode::Use(self@.preprocessor_cache_mode),
    {
        PreprocessorCacheMode::Use(self.preprocessor_cache_mode)
    }
}

/// The results of so many look-ups, one after the other, and what is then still
/// queued up.
pub open spec fn answers_taken(
    count: nat,
    answers: Seq<Result<Cache<Bytes>, ErrorChain>>,
) -> (Seq<Result<Cache<Bytes>, ErrorChain>>, Seq<Result<Cache<Bytes>, ErrorChain>>)
    decreases count,
{
    if count == 0 || answers.len() == 0 {
        (Seq::empty(), answers)
    } else {
        let (later, left) = answers_taken((count - 1) as nat, answers.drop_first());
        (seq![answers[0]] + later, left)
    }
}

/// Look-ups are answered in the order in which the results were queued up, each
/// result once.
pub proof fn law_answers_come_in_order(count: nat, answers: Seq<Result<Cache<Bytes>, ErrorChain>>)
    requires
        count <= answers.len(),
    ensures
        answers_taken(count, answers) == (answers.take(count as int), answers.skip(count as int)),
    decreases count,
{
    if count > 0 {
        let rest = answers.drop_first();
        law_answers_come_in_order((count - 1) as nat, rest);
        assert(seq![answers[0]] + rest.take(count - 1) =~= answers.take(count as int));
        assert(rest.skip(count - 1) =~= answers.skip(count as int));
    } else {
        assert(answers.take(0) =~= Seq::empty());
        assert(answers.skip(0) =~= answers);
    }
}

} // verus!
