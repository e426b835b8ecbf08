use crate::messages::{Content, Part, PartData, is_single_text_content, single_text_content};
use crate::schema::Tool;
use crate::text::{note_text, noted, str_eq};
use crate::tools::{get_string_arg, string_arg};
use vstd::prelude::*;

verus! {

/// A well-formed error envelope from the upstream service.
#[derive(Clone, Debug, PartialEq)]
pub struct ErrorEnvelope {
    pub code: u32,
    pub message: String,
}

/// One alternative generated output of a batch response; only the first
/// candidate of a response is ever consumed.
#[derive(Clone, Debug, PartialEq)]
pub struct Candidate {
    pub content: Option<Content>,
}

/// The decoded shape of one batch attempt's reply: a normal response, a
/// well-formed error envelope, or a payload that parses as neither.
#[derive(Clone, Debug, PartialEq)]
pub enum BatchResponse {
    Response { candidates: Vec<Candidate> },
    Error(ErrorEnvelope),
    Undecodable,
}

/// Why the batch engine gave up.
#[derive(Clone, Debug, PartialEq)]
pub enum BatchError {
    /// A well-formed error envelope with a code other than 503.
    Upstream { code: u32, message: String },
    /// The payload parsed as neither a response nor an error envelope.
    Deserialize,
    /// A response arrived with an empty candidate list.
    NoCandidates,
    /// Every allowed attempt was answered with a 503 envelope.
    Unavailable,
}

/// The upstream code that marks a transient, retryable failure.
pub const UNAVAILABLE_CODE: u32 = 503;

/// The attempt cap of the retry loop.
pub const MAX_ATTEMPTS: u64 = 5;

/// What one attempt's reply means for the retry loop.
#[derive(Clone, Debug, PartialEq)]
pub enum Disposition {
    Success(Candidate),
    Retry,
    Fatal(BatchError),
}

/// Classify one reply: a response yields its first candidate (or a fatal
/// no-candidates error when the list is empty); a 503 envelope is
/// retryable; any other envelope and any undecodable payload are fatal.
pub open spec fn spec_classify(r: BatchResponse) -> Disposition {
    match r {
        BatchResponse::Response { candidates } => {
            if candidates@.len() >= 1 {
                Disposition::Success(candidates@[0])
            } else {
                Disposition::Fatal(BatchError::NoCandidates)
            }
        },
        BatchResponse::Error(env) => {
            if env.code == UNAVAILABLE_CODE {
                Disposition::Retry
            } else {
                Disposition::Fatal(BatchError::Upstream { code: env.code, message: env.message })
            }
        },
        BatchResponse::Undecodable => Disposition::Fatal(BatchError::Deserialize),
    }
}

/// Classify one attempt's reply.
pub fn classify(r: BatchResponse) -> (d: Disposition)
    ensures
        d == spec_classify(r),
{
    match r {
        BatchResponse::Response { candidates } => {
            let mut candidates = candidates;
            if candidates.len() >= 1 {
                let first = candidates.remove(0);
                Disposition::Success(first)
            } else {
                Disposition::Fatal(BatchError::NoCandidates)
            }
        },
        BatchResponse::Error(env) => {
            if env.code == UNAVAILABLE_CODE {
                Disposition::Retry
            } else {
                Disposition::Fatal(BatchError::Upstream { code: env.code, message: env.message })
            }
        },
        BatchResponse::Undecodable => Disposition::Fatal(BatchError::Deserialize),
    }
}

/// The retry loop's outcome from attempt `attempt` on, given the reply each
/// remaining attempt would receive, paired with the sleep durations (in
/// seconds) taken before giving the next attempt its turn.
pub open spec fn spec_run_from(rs: Seq<BatchResponse>, attempt: int) -> (
    Result<Candidate, BatchError>,
    Seq<u64>,
)
    decreases MAX_ATTEMPTS - attempt,
{
    if attempt < 0 || attempt >= MAX_ATTEMPTS {
        (Err(BatchError::Unavailable), Seq::empty())
    } else {
        match spec_classify(rs[attempt]) {
            Disposition::Success(c) => (Ok(c), Seq::empty()),
            Disposition::Fatal(e) => (Err(e), Seq::empty()),
            Disposition::Retry => {
                let (res, sleeps) = spec_run_from(rs, attempt + 1);
                (res, seq![attempt as u64] + sleeps)
            },
        }
    }
}

/// The whole retry loop: up to five attempts, sleeping `attempt` seconds
/// after the attempt of that index is answered with a 503 envelope.
pub open spec fn spec_run_batch(rs: Seq<BatchResponse>) -> (
    Result<Candidate, BatchError>,
    Seq<u64>,
) {
    spec_run_from(rs, 0)
}

/// Run the retry loop over the replies the attempts would receive, one per
/// potential attempt: stop on the first decisive reply, sleep and go on
/// after each 503 envelope, and give up once the attempt cap is reached.
/// Returns the result and the sleep durations taken, in order.
#[verifier::loop_isolation(false)]
pub fn run_batch(responses: Vec<BatchResponse>) -> (r: (
    Result<Candidate, BatchError>,
    Vec<u64>,
))
    requires
        responses@.len() >= MAX_ATTEMPTS,
    ensures
        r.0 == spec_run_batch(responses@).0,
        r.1@ == spec_run_batch(responses@).1,
{
    let ghost orig = responses@;
    let mut responses = responses;
    let mut sleeps: Vec<u64> = Vec::new();
    let mut attempt: u64 = 0;
    proof {
        assert(orig.skip(0) =~= orig);
        assert(Seq::<u64>::empty() + spec_run_from(orig, 0).1 =~= spec_run_from(orig, 0).1);
    }
    while attempt < MAX_ATTEMPTS
        invariant
            attempt <= MAX_ATTEMPTS,
            orig.len() >= MAX_ATTEMPTS,
            responses@ == orig.skip(attempt as int),
            sleeps@.len() == attempt,
            spec_run_batch(orig).0 == spec_run_from(orig, attempt as int).0,
            spec_run_batch(orig).1 == sleeps@ + spec_run_from(orig, attempt as int).1,
        decreases MAX_ATTEMPTS - attempt,
    {
        proof {
            assert(orig.skip(attempt as int)[0] == orig[attempt as int]);
            assert(orig.skip(attempt as int).drop_first() =~= orig.skip(attempt + 1));
        }
        let reply = responses.remove(0);
        match classify(reply) {
            Disposition::Success(c) => {
                proof {
                    assert(sleeps@ + Seq::<u64>::empty() =~= sleeps@);
                }
                return (Ok(c), sleeps);
            },
            Disposition::Fatal(e) => {
                proof {
                    assert(sleeps@ + Seq::<u64>::empty() =~= sleeps@);
                }
                return (Err(e), sleeps);
            },
            Disposition::Retry => {
                proof {
                    assert(sleeps@ + (seq![attempt as u64] + spec_run_from(orig, attempt + 1).1)
                        =~= sleeps@.push(attempt as u64) + spec_run_from(orig, attempt + 1).1);
                }
                sleeps.push(attempt);
                attempt = attempt + 1;
            },
        }
    }
    proof {
        assert(sleeps@ + Seq::<u64>::empty() =~= sleeps@);
    }
    (Err(BatchError::Unavailable), sleeps)
}

/// What the retry loop does after one attempt: stop with a result, or
/// sleep and try again.
#[derive(Debug, PartialEq)]
pub enum RetryStep {
    Done(Result<Candidate, BatchError>),
    SleepThenRetry { seconds: u64, next_attempt: u64 },
}

/// Decide one attempt of the retry loop: a decisive reply ends the loop
/// with its result; a 503 envelope asks for a sleep of `attempt` seconds
/// before the next attempt. The caller gives up once the next attempt would
/// reach the cap.
pub fn batch_step(attempt: u64, reply: BatchResponse) -> (r: RetryStep)
    requires
        attempt < MAX_ATTEMPTS,
    ensures
        match spec_classify(reply) {
            Disposition::Success(c) => r == RetryStep::Done(Ok::<Candidate, BatchError>(c)),
            Disposition::Fatal(e) => r == RetryStep::Done(Err::<Candidate, BatchError>(e)),
            Disposition::Retry => r == (RetryStep::SleepThenRetry {
                seconds: attempt,
                next_attempt: (attempt + 1) as u64,
            }),
        },
{
    match classify(reply) {
        Disposition::Success(c) => RetryStep::Done(Ok(c)),
        Disposition::Fatal(e) => RetryStep::Done(Err(e)),
        Disposition::Retry => RetryStep::SleepThenRetry {
            seconds: attempt,
            next_attempt: attempt + 1,
        },
    }
}

/// Bounded retry on unavailability: when every one of the five attempts is
/// answered with a well-formed 503 envelope, the engine sleeps 0, 1, 2, 3
/// and 4 seconds after the successive attempts and then fails as
/// unavailable.
pub proof fn lemma_unavailable_after_bounded_retries(rs: Seq<BatchResponse>)
    requires
        rs.len() >= MAX_ATTEMPTS,
        forall|i: int|
            0 <= i < MAX_ATTEMPTS ==> (#[trigger] rs[i] matches BatchResponse::Error(env)
                && env.code == UNAVAILABLE_CODE),
    ensures
        spec_run_batch(rs).0 == Err::<Candidate, BatchError>(BatchError::Unavailable),
        spec_run_batch(rs).1 =~= seq![0u64, 1u64, 2u64, 3u64, 4u64],
{
    assert(spec_classify(rs[0]) is Retry);
    assert(spec_classify(rs[1]) is Retry);
    assert(spec_classify(rs[2]) is Retry);
    assert(spec_classify(rs[3]) is Retry);
    assert(spec_classify(rs[4]) is Retry);
    assert(spec_run_from(rs, 5).0 == Err::<Candidate, BatchError>(BatchError::Unavailable));
    assert(spec_run_from(rs, 5).1 =~= Seq::<u64>::empty());
    assert(spec_run_from(rs, 4).1 =~= seq![4u64]);
    assert(spec_run_from(rs, 3).1 =~= seq![3u64, 4u64]);
    assert(spec_run_from(rs, 2).1 =~= seq![2u64, 3u64, 4u64]);
    assert(spec_run_from(rs, 1).1 =~= seq![1u64, 2u64, 3u64, 4u64]);
    assert(spec_run_from(rs, 0).1 =~= seq![0u64, 1u64, 2u64, 3u64, 4u64]);
}

/// Fatal upstream errors are not retried: an error envelope with a code
/// other than 503 on the first attempt fails at once, with no sleep.
pub proof fn lemma_fatal_error_no_retry(rs: Seq<BatchResponse>)
    requires
        rs.len() >= 1,
        rs[0] matches BatchResponse::Error(env) && env.code != UNAVAILABLE_CODE,
    ensures
        rs[0] matches BatchResponse::Error(env) ==> spec_run_batch(rs).0 == Err::<
            Candidate,
            BatchError,
        >(BatchError::Upstream { code: env.code, message: env.message }),
        spec_run_batch(rs).1 == Seq::<u64>::empty(),
{
}

/// A response with at least one candidate ends the loop at once: the first
/// candidate is returned and no further attempt or sleep happens.
pub proof fn lemma_first_candidate_consumed(rs: Seq<BatchResponse>)
    requires
        rs.len() >= 1,
        rs[0] matches BatchResponse::Response { candidates } && candidates@.len() >= 1,
    ensures
        rs[0] matches BatchResponse::Response { candidates } ==> spec_run_batch(rs).0 == Ok::<
            Candidate,
            BatchError,
        >(candidates@[0]),
        spec_run_batch(rs).1 == Seq::<u64>::empty(),
{
}

/// The one-shot request of the batch path: the model path, the system
/// instruction, the tool declarations, and exactly the given content parts
/// as one turn.
#[derive(Debug, PartialEq)]
pub struct BatchRequest {
    pub model: String,
    pub system_instruction: Option<Content>,
    pub tools: Vec<Tool>,
    pub contents: Vec<Content>,
}

/// Build one batch request around the given content parts.
pub fn batch_request(model: &str, system_instruction: &str, tools: Vec<Tool>, parts: Vec<Part>) -> (r:
    BatchRequest)
    ensures
        r.model@ == "models/"@ + model@,
        r.system_instruction matches Some(c) && is_single_text_content(c, system_instruction@),
        r.tools@ == tools@,
        r.contents@.len() == 1,
        r.contents@[0].parts@ == parts@,
{
    let mut model_path: String = String::from_str("models/");
    model_path.append(model);
    BatchRequest {
        model: model_path,
        system_instruction: Some(single_text_content(system_instruction.to_owned())),
        tools,
        contents: vec![Content { role: String::new(), parts }],
    }
}

/// The message contents the batch path sends for one candidate's parts,
/// given the notes gathered so far. Auxiliary (non-thought) text parts
/// accumulate as faded notes; each non-thought function-call part naming
/// the send tool with its one required string argument `message` emits the
/// notes gathered so far followed by that message. Thought parts, unknown
/// tools and calls without a string `message` contribute nothing. The notes
/// are not cleared once used: a later call in the same candidate carries
/// them again.
pub open spec fn spec_consume_parts(parts: Seq<Part>, notes: Seq<char>) -> Seq<Seq<char>>
    decreases parts.len(),
{
    if parts.len() == 0 {
        Seq::empty()
    } else {
        let p = parts.first();
        let rest = parts.drop_first();
        if p.thought {
            spec_consume_parts(rest, notes)
        } else {
            match p.data {
                Some(PartData::Text(t)) => spec_consume_parts(rest, notes + noted(t@)),
                Some(PartData::FunctionCall(fc)) => {
                    if fc.name@ == "discord_send_message"@ {
                        match string_arg(fc.args@, "message"@) {
                            Some(m) => seq![notes + m@] + spec_consume_parts(rest, notes),
                            None => spec_consume_parts(rest, notes),
                        }
                    } else {
                        spec_consume_parts(rest, notes)
                    }
                },
                _ => spec_consume_parts(rest, notes),
            }
        }
    }
}

/// The message contents the batch path sends for one candidate.
pub open spec fn spec_consume_candidate(c: Candidate) -> Seq<Seq<char>> {
    match c.content {
        Some(content) => spec_consume_parts(content.parts@, Seq::empty()),
        None => Seq::empty(),
    }
}

/// Scan one candidate's parts in order and return the message contents to
/// send, each carrying the auxiliary text gathered before it as faded
/// notes.
#[verifier::loop_isolation(false)]
pub fn consume_candidate(c: &Candidate) -> (r: Vec<String>)
    ensures
        r@.map_values(|s: String| s@) == spec_consume_candidate(*c),
{
    let mut out: Vec<String> = Vec::new();
    let parts: &Vec<Part> = match &c.content {
        Some(content) => &content.parts,
        None => {
            proof {
                assert(out@.map_values(|s: String| s@) =~= Seq::<Seq<char>>::empty());
            }
            return out;
        },
    };
    let mut notes: String = String::new();
    let mut i: usize = 0;
    proof {
        assert(parts@.skip(0) =~= parts@);
        assert(out@.map_values(|s: String| s@) + spec_consume_parts(parts@, notes@)
            =~= spec_consume_parts(parts@, notes@));
    }
    while i < parts.len()
        invariant
            i <= parts@.len(),
            spec_consume_candidate(*c) == out@.map_values(|s: String| s@) + spec_consume_parts(
                parts@.skip(i as int),
                notes@,
            ),
        decreases parts@.len() - i,
    {
        proof {
            assert(parts@.skip(i as int).first() == parts@[i as int]);
            assert(parts@.skip(i as int).drop_first() =~= parts@.skip(i + 1));
        }
        let part = &parts[i];
        if !part.thought {
            match &part.data {
                Some(PartData::Text(t)) => {
                    let note = note_text(t.as_str());
                    notes.append(note.as_str());
                },
                Some(PartData::FunctionCall(fc)) => {
                    if str_eq(fc.name.as_str(), "discord_send_message") {
                        match get_string_arg(&fc.args, "message") {
                            Some(m) => {
                                let mut message = notes.clone();
                                message.append(m.as_str());
                                let ghost before = out@.map_values(|s: String| s@);
                                out.push(message);
                                proof {
                                    assert(out@.map_values(|s: String| s@) =~= before.push(
                                        notes@ + m@,
                                    ));
                                    assert(before + (seq![notes@ + m@] + spec_consume_parts(
                                        parts@.skip(i + 1),
                                        notes@,
                                    )) =~= before.push(notes@ + m@) + spec_consume_parts(
                                        parts@.skip(i + 1),
                                        notes@,
                                    ));
                                }
                            },
                            None => {},
                        }
                    }
                },
                _ => {},
            }
        }
        i += 1;
    }
    proof {
        assert(parts@.skip(parts@.len() as int) =~= Seq::<Part>::empty());
        assert(out@.map_values(|s: String| s@) + Seq::<Seq<char>>::empty() =~= out@.map_values(
            |s: String| s@,
        ));
    }
    out
}

} // verus!
