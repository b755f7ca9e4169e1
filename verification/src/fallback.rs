//! Go-to-definition and its fallback race.
//!
//! The authoritative analysis backend is precise but slow and sometimes
//! unavailable; a heuristic backend is fast and always willing to guess. When
//! the heuristic fallback is enabled by configuration, both lookups run
//! concurrently inside one deadline window, and their outcomes are merged by a
//! fixed priority: an authoritative success wins unconditionally, even if the
//! heuristic answered first and differently; only an authoritative failure
//! consults the heuristic result, and only when the fallback is enabled.

use vstd::prelude::*;

use crate::types::Location;
use crate::types::Span;

verus! {

/// What came out of the heuristic lookup's completion channel: a location, an
/// explicit "nothing found", or no answer at all (fault or dropped channel).
#[derive(Clone, Debug)]
pub enum HeuristicOutcome {
    Found(Location),
    NotFound,
    Failed,
}

/// The merged result of one fallback race, produced at most once per request.
#[derive(Clone, Debug)]
pub enum FallbackOutcome {
    PrimarySuccess(Location),
    SecondarySuccess(Location),
    BothFailed,
}

/// The location a span of the authoritative backend converts to.
pub open spec fn location_of_span(s: Span) -> Location {
    Location { file: s.file, range: s.range }
}

/// The resolution rule of the race: authoritative success first, then — only
/// when the fallback is enabled — a heuristic hit, else failure.
pub open spec fn race_outcome(
    primary: Option<Span>,
    fallback_enabled: bool,
    heuristic: HeuristicOutcome,
) -> FallbackOutcome {
    match primary {
        Some(s) => FallbackOutcome::PrimarySuccess(location_of_span(s)),
        None => if fallback_enabled && heuristic is Found {
            FallbackOutcome::SecondarySuccess(heuristic->0)
        } else {
            FallbackOutcome::BothFailed
        },
    }
}

/// The locations a merged outcome answers with: one on either success, none
/// on a double failure.
pub open spec fn locations_of_outcome(o: FallbackOutcome) -> Seq<Location> {
    match o {
        FallbackOutcome::PrimarySuccess(l) => seq![l],
        FallbackOutcome::SecondarySuccess(l) => seq![l],
        FallbackOutcome::BothFailed => Seq::empty(),
    }
}

/// Handles go-to-definition requests: a fallback race between the
/// authoritative and the heuristic backend.
pub struct Definition;

impl Definition {
    pub fn new() -> Definition {
        Definition
    }

    /// Merge the two lookups' outcomes by the race's priority rule.
    ///
    /// `primary` is the authoritative backend's answer (`None` on failure);
    /// `heuristic` is what the heuristic backend's completion channel yielded.
    /// When the fallback is disabled the heuristic outcome is ignored
    /// entirely, whatever it holds.
    pub fn race(
        primary: Option<Span>,
        fallback_enabled: bool,
        heuristic: HeuristicOutcome,
    ) -> (r: FallbackOutcome)
        ensures
            r == race_outcome(primary, fallback_enabled, heuristic),
    {
        match primary {
            Some(s) => FallbackOutcome::PrimarySuccess(Location::from_span(&s)),
            None => {
                if fallback_enabled {
                    match heuristic {
                        HeuristicOutcome::Found(l) => FallbackOutcome::SecondarySuccess(l),
                        _ => FallbackOutcome::BothFailed,
                    }
                } else {
                    FallbackOutcome::BothFailed
                }
            },
        }
    }

    /// The work a go-to-definition request submits, after both backends have
    /// spoken: the merged outcome, shaped as the response's location list.
    pub fn work(
        primary: Option<Span>,
        fallback_enabled: bool,
        heuristic: HeuristicOutcome,
    ) -> (r: Vec<Location>)
        ensures
            r@ == locations_of_outcome(race_outcome(primary, fallback_enabled, heuristic)),
    {
        let outcome = Self::race(primary, fallback_enabled, heuristic);
        let mut r: Vec<Location> = Vec::new();
        match outcome {
            FallbackOutcome::PrimarySuccess(l) => r.push(l),
            FallbackOutcome::SecondarySuccess(l) => r.push(l),
            FallbackOutcome::BothFailed => (),
        }
        proof {
            assert(r@ =~= locations_of_outcome(
                race_outcome(primary, fallback_enabled, heuristic),
            ));
        }
        r
    }

    /// Settle the outer deadline: a response that never arrived is an empty
    /// location list, not an error.
    pub fn handle(outcome: Option<Vec<Location>>) -> (r: Vec<Location>)
        ensures
            outcome is Some ==> r == outcome->0,
            outcome is None ==> r@ == Seq::<Location>::empty(),
    {
        match outcome {
            Some(v) => v,
            None => Vec::new(),
        }
    }
}

/// Authoritative-priority law: whenever the authoritative lookup succeeds,
/// the race answers with exactly the authoritative location — the fallback
/// setting and the heuristic outcome, however fast or different, never change
/// it.
pub proof fn lemma_authoritative_priority(
    primary: Span,
    fallback_enabled: bool,
    heuristic: HeuristicOutcome,
)
    ensures
        race_outcome(Some(primary), fallback_enabled, heuristic)
            == FallbackOutcome::PrimarySuccess(location_of_span(primary)),
        locations_of_outcome(race_outcome(Some(primary), fallback_enabled, heuristic))
            == seq![location_of_span(primary)],
{
}

/// Fallback law: when the authoritative lookup fails and the fallback is
/// enabled, a heuristic hit is the whole answer — exactly its one location.
pub proof fn lemma_heuristic_fallback(l: Location)
    ensures
        race_outcome(None, true, HeuristicOutcome::Found(l))
            == FallbackOutcome::SecondarySuccess(l),
        locations_of_outcome(race_outcome(None, true, HeuristicOutcome::Found(l))) == seq![l],
{
}

/// Fallback-gating law: when the authoritative lookup fails and the fallback
/// is disabled, the race answers with no location at all, even if the
/// heuristic would have succeeded.
pub proof fn lemma_fallback_gating(heuristic: HeuristicOutcome)
    ensures
        race_outcome(None, false, heuristic) == FallbackOutcome::BothFailed,
        locations_of_outcome(race_outcome(None, false, heuristic)) == Seq::<Location>::empty(),
{
}

} // verus!
