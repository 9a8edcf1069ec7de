use vstd::prelude::*;
use crate::command::Command;
use crate::parser::{ParseFailure, ProtocolParseError};

verus! {

/// Why the node could not be reached or did not answer.
#[derive(Clone, Copy, Debug, PartialEq, Eq, Structural)]
pub enum UpstreamError {
    /// The request did not complete within its time bound.
    Timeout,
    /// No connection could be made.
    Unreachable,
    /// The exchange failed in another way (a malformed answer, a reset).
    Transport,
}

/// Why one refresh left the published values as they were.
#[derive(Clone, Debug)]
pub enum PollError {
    Upstream(UpstreamError),
    Parse(ProtocolParseError),
}

impl PollError {
    /// The HTTP status a scrape answers with when its refresh failed: 503 when
    /// the node could not be reached, 502 when its answer was refused.
    pub fn status_code(&self) -> (r: u16)
        ensures
            r == (match self {
                PollError::Upstream(_) => 503u16,
                PollError::Parse(_) => 502u16,
            }),
    {
        match self {
            PollError::Upstream(_) => 503,
            PollError::Parse(_) => 502,
        }
    }
}

/// The values of one complete answer, in the order of `command`'s fields.
#[derive(Clone, Debug)]
pub struct ParsedMetrics<T> {
    pub command: Command,
    pub values: Vec<T>,
}

impl<T> ParsedMetrics<T> {
    /// One value for each field of the command.
    pub open spec fn wf(&self) -> bool {
        self.values@.len() == self.command.field_count()
    }

    /// Assembles the values of an answer from the conversion of each value
    /// text; the first value that could not be converted refuses the whole
    /// answer.
    pub fn from_converted(command: Command, raw: &str, converted: Vec<Option<T>>) -> (r: Result<
        ParsedMetrics<T>,
        ProtocolParseError,
    >)
        requires
            converted@.len() == command.field_count(),
        ensures
            match r {
                Ok(p) => {
                    &&& p.wf()
                    &&& p.command == command
                    &&& forall|i: int| 0 <= i < converted@.len() ==> converted@[i] == Some(#[trigger] p.values@[i])
                },
                Err(e) => {
                    &&& e.raw@ == raw@
                    &&& exists|i: usize|
                        i < converted@.len() && e.kind == ParseFailure::NotFinite(i)
                            && converted@[i as int] is None
                            && forall|j: int| 0 <= j < i ==> #[trigger] converted@[j] is Some
                },
            },
            (forall|i: int| 0 <= i < converted@.len() ==> #[trigger] converted@[i] is Some) <==> r is Ok,
    {
        let n = converted.len();
        let ghost all = converted@;
        let mut values: Vec<T> = Vec::new();
        let mut rest = converted;
        let mut i: usize = 0;
        let mut missing = false;
        while i < n
            invariant_except_break
                rest@ == all.subrange(i as int, n as int),
            invariant
                i <= n,
                n == all.len(),
                values@.len() == i,
                forall|j: int| 0 <= j < i ==> all[j] == Some(#[trigger] values@[j]),
                missing ==> i < n && all[i as int] is None,
            ensures
                missing || i == n,
            decreases n - i + if missing { 0int } else { 1int },
        {
            match rest.remove(0) {
                Some(v) => {
                    values.push(v);
                    proof {
                        assert(rest@ =~= all.subrange(i + 1, n as int));
                    }
                    i = i + 1;
                },
                None => {
                    missing = true;
                    break;
                },
            }
        }
        if missing {
            proof {
                assert forall|j: int| 0 <= j < i implies (#[trigger] all[j]) is Some by {
                    assert(all[j] == Some(values@[j]));
                }
            }
            return Err(ProtocolParseError { kind: ParseFailure::NotFinite(i), raw: raw.to_owned() });
        }
        proof {
            assert forall|j: int| 0 <= j < n implies (#[trigger] all[j]) is Some by {
                assert(all[j] == Some(values@[j]));
            }
        }
        Ok(ParsedMetrics { command, values })
    }
}

/// The published values: none before the first successful refresh, then the
/// values of the last one, always a complete set.
pub struct MetricSet<T> {
    command: Command,
    current: Option<Vec<T>>,
}

impl<T> MetricSet<T> {
    #[verifier::type_invariant]
    spec fn complete(&self) -> bool {
        match self.current {
            Some(v) => v@.len() == self.command.field_count(),
            None => true,
        }
    }

    /// The command whose fields this set publishes.
    pub closed spec fn spec_command(&self) -> Command {
        self.command
    }

    /// What a scrape sees.
    pub closed spec fn spec_snapshot(&self) -> Option<Seq<T>> {
        match self.current {
            Some(v) => Some(v@),
            None => None,
        }
    }

    /// `after` is `before` with the values of `p` published.
    pub open spec fn publishes(before: Self, p: ParsedMetrics<T>, after: Self) -> bool {
        &&& after.spec_command() == before.spec_command()
        &&& after.spec_snapshot() == Some(p.values@)
    }

    /// `after` is `before` once the outcome of one refresh is recorded.
    pub open spec fn records(
        before: Self,
        outcome: Result<ParsedMetrics<T>, PollError>,
        after: Self,
    ) -> bool {
        match outcome {
            Ok(p) => Self::publishes(before, p, after),
            Err(_) => after == before,
        }
    }

    pub fn new(command: Command) -> (r: Self)
        ensures
            r.spec_command() == command,
            r.spec_snapshot() is None,
    {
        MetricSet { command, current: None }
    }

    pub fn command(&self) -> (r: Command)
        ensures
            r == self.spec_command(),
    {
        self.command
    }

    /// The values last published, one for each field of the command.
    pub fn snapshot(&self) -> (r: Option<&Vec<T>>)
        ensures
            match r {
                Some(v) => self.spec_snapshot() == Some(v@) && v@.len()
                    == self.spec_command().field_count(),
                None => self.spec_snapshot() is None,
            },
    {
        proof {
            use_type_invariant(self);
        }
        match &self.current {
            Some(v) => Some(v),
            None => None,
        }
    }

    /// Replaces all published values at once with those of `p`.
    pub fn publish(&mut self, p: ParsedMetrics<T>)
        requires
            p.wf(),
            p.command == old(self).spec_command(),
        ensures
            Self::publishes(*old(self), p, *final(self)),
    {
        self.current = Some(p.values);
    }

    /// Records the outcome of one refresh: a complete answer is published,
    /// a failure leaves the published values as they were and is handed back.
    pub fn record_poll(&mut self, outcome: Result<ParsedMetrics<T>, PollError>) -> (r: Result<
        (),
        PollError,
    >)
        requires
            outcome matches Ok(p) ==> p.wf() && p.command == old(self).spec_command(),
        ensures
            Self::records(*old(self), outcome, *final(self)),
            match outcome {
                Ok(_) => r is Ok,
                Err(e) => r == Err::<(), PollError>(e),
            },
    {
        match outcome {
            Ok(p) => {
                self.publish(p);
                Ok(())
            },
            Err(e) => Err(e),
        }
    }
}

/// Two publications one after the other leave exactly the complete values of
/// the second, never a mixture of the two.
pub proof fn lemma_last_publish_wins<T>(
    m0: MetricSet<T>,
    a: ParsedMetrics<T>,
    m1: MetricSet<T>,
    b: ParsedMetrics<T>,
    m2: MetricSet<T>,
)
    requires
        MetricSet::publishes(m0, a, m1),
        MetricSet::publishes(m1, b, m2),
    ensures
        m2.spec_snapshot() == Some(b.values@),
        m2.spec_snapshot() == Some(a.values@) || m2.spec_snapshot() == Some(b.values@),
{
}

/// A failed refresh after a successful one leaves the values of the
/// successful one published.
pub proof fn lemma_failure_keeps_last_success<T>(
    m0: MetricSet<T>,
    a: ParsedMetrics<T>,
    m1: MetricSet<T>,
    e: PollError,
    m2: MetricSet<T>,
)
    requires
        MetricSet::records(m0, Ok(a), m1),
        MetricSet::records(m1, Err(e), m2),
    ensures
        m2.spec_snapshot() == Some(a.values@),
        m2.spec_command() == m0.spec_command(),
{
}

} // verus!
