//! The container-event decision engine.
//!
//! Lifecycle events carry an action and the id of the actor (the container)
//! that raised them.  The [`EventAnalyzer`] matches each event against its
//! known threat patterns, keeps one behaviour profile per actor, and returns
//! an [`AnalysisResult`]: the event, the first matching pattern, the actor's
//! risk score after this event, and the recommended actions for that score.

use vstd::prelude::*;

use crate::tunnel::sat_add;

verus! {

/// One container lifecycle event: when it happened, the action, and the
/// actor that raised it.
#[derive(Debug)]
pub struct DockerEvent {
    pub timestamp: String,
    pub action: String,
    pub actor_id: String,
}

/// One known threat pattern: a name, the action it fires on, and its
/// severity.
#[derive(Debug)]
pub struct ThreatPattern {
    pub name: String,
    pub action: String,
    pub severity: u64,
}

/// Does the pattern fire on the event?  It fires exactly on its action.
pub open spec fn pattern_matches(p: ThreatPattern, action: Seq<char>) -> bool {
    p.action@ == action
}

impl ThreatPattern {
    /// Does this pattern fire on the given event?
    pub fn matches(&self, event: &DockerEvent) -> (r: bool)
        ensures
            r == pattern_matches(*self, event.action@),
    {
        self.action.eq(&event.action)
    }
}

/// The running behaviour profile of one actor.
#[derive(Clone, Copy, Debug, PartialEq, Eq, Structural)]
pub struct BehaviorProfile {
    /// How many events this actor has raised.
    pub event_count: u64,
}

/// The risk score for an actor that raised `count` events: ten per event,
/// capped at one hundred.
pub open spec fn spec_risk_score(count: u64) -> u64 {
    if count >= 10 {
        100
    } else {
        (count * 10) as u64
    }
}

/// The recommended actions for a risk score: isolation and notification at
/// high risk, manual review at moderate risk, nothing below.
pub open spec fn spec_recommendations(risk: u64) -> Seq<Seq<char>> {
    if risk >= 70 {
        seq!["Isolar container"@, "Notificar administrador"@]
    } else if risk >= 40 {
        seq!["Analisar manualmente"@]
    } else {
        Seq::empty()
    }
}

impl BehaviorProfile {
    /// A fresh profile: no events seen.
    pub fn new() -> (r: BehaviorProfile)
        ensures
            r.event_count == 0,
    {
        BehaviorProfile { event_count: 0 }
    }

    /// Record one more event by this actor.
    pub fn update(&mut self, event: &DockerEvent)
        ensures
            final(self).event_count == sat_add(old(self).event_count, 1),
    {
        let _ = event;
        self.event_count = self.event_count.saturating_add(1);
    }

    /// The actor's risk score.
    pub fn risk_score(&self) -> (r: u64)
        ensures
            r == spec_risk_score(self.event_count),
    {
        if self.event_count >= 10 {
            100
        } else {
            self.event_count * 10
        }
    }

    /// The recommended actions for the actor's present risk score.
    pub fn recommend_actions(&self) -> (r: Vec<String>)
        ensures
            r@.map_values(|s: String| s@) == spec_recommendations(spec_risk_score(
                self.event_count,
            )),
    {
        let risk = self.risk_score();
        let mut r: Vec<String> = Vec::new();
        if risk >= 70 {
            r.push(String::from_str("Isolar container"));
            r.push(String::from_str("Notificar administrador"));
        } else if risk >= 40 {
            r.push(String::from_str("Analisar manualmente"));
        }
        proof {
            assert(r@.map_values(|s: String| s@) =~= spec_recommendations(
                spec_risk_score(self.event_count),
            ));
        }
        r
    }
}

/// The verdict on one event.
#[derive(Debug)]
pub struct AnalysisResult {
    pub event: DockerEvent,
    /// The first known pattern the event fired, if any.
    pub pattern_match: Option<ThreatPattern>,
    /// The actor's risk score after this event.
    pub risk_score: u64,
    pub recommended_actions: Vec<String>,
}

/// The first index whose pattern fires on the action.
pub open spec fn spec_first_match(ts: Seq<ThreatPattern>, action: Seq<char>) -> Option<int>
    decreases ts.len(),
{
    if ts.len() == 0 {
        None
    } else if pattern_matches(ts[0], action) {
        Some(0)
    } else {
        match spec_first_match(ts.drop_first(), action) {
            Some(i) => Some(i + 1),
            None => None,
        }
    }
}

proof fn lemma_first_match_hit(ts: Seq<ThreatPattern>, action: Seq<char>, i: int)
    requires
        0 <= i < ts.len(),
        pattern_matches(ts[i], action),
        forall|j: int| 0 <= j < i ==> !pattern_matches(ts[j], action),
    ensures
        spec_first_match(ts, action) == Some(i),
    decreases ts.len(),
{
    if i > 0 {
        lemma_first_match_hit(ts.drop_first(), action, i - 1);
    }
}

proof fn lemma_first_match_miss(ts: Seq<ThreatPattern>, action: Seq<char>)
    requires
        forall|j: int| 0 <= j < ts.len() ==> !pattern_matches(ts[j], action),
    ensures
        spec_first_match(ts, action) is None,
    decreases ts.len(),
{
    if ts.len() > 0 {
        lemma_first_match_miss(ts.drop_first(), action);
    }
}

/// The first index holding the given actor key.
pub open spec fn spec_find_key(s: Seq<(String, BehaviorProfile)>, key: Seq<char>) -> Option<int>
    decreases s.len(),
{
    if s.len() == 0 {
        None
    } else if s[0].0@ == key {
        Some(0)
    } else {
        match spec_find_key(s.drop_first(), key) {
            Some(i) => Some(i + 1),
            None => None,
        }
    }
}

proof fn lemma_find_key_hit(s: Seq<(String, BehaviorProfile)>, key: Seq<char>, i: int)
    requires
        0 <= i < s.len(),
        s[i].0@ == key,
        forall|j: int| 0 <= j < i ==> (#[trigger] s[j].0)@ != key,
    ensures
        spec_find_key(s, key) == Some(i),
    decreases s.len(),
{
    if i > 0 {
        lemma_find_key_hit(s.drop_first(), key, i - 1);
    }
}

proof fn lemma_find_key_miss(s: Seq<(String, BehaviorProfile)>, key: Seq<char>)
    requires
        forall|j: int| 0 <= j < s.len() ==> (#[trigger] s[j].0)@ != key,
    ensures
        spec_find_key(s, key) is None,
    decreases s.len(),
{
    if s.len() > 0 {
        lemma_find_key_miss(s.drop_first(), key);
    }
}

fn clone_pattern(p: &ThreatPattern) -> (c: ThreatPattern)
    ensures
        c == *p,
{
    let c = ThreatPattern {
        name: p.name.clone(),
        action: p.action.clone(),
        severity: p.severity,
    };
    c
}

/// The analyzer: the known threat patterns and one behaviour profile per
/// actor seen so far.
pub struct EventAnalyzer {
    pub threats: Vec<ThreatPattern>,
    pub behavior_profiles: Vec<(String, BehaviorProfile)>,
}

impl EventAnalyzer {
    /// No two profiles share an actor key.
    pub open spec fn wf(&self) -> bool {
        forall|i: int, j: int|
            0 <= i < j < self.behavior_profiles@.len() ==> (#[trigger] self.behavior_profiles@[i].0)@
                != (#[trigger] self.behavior_profiles@[j].0)@
    }

    /// An analyzer loaded with the built-in threat patterns and no profiles.
    pub fn new() -> (r: EventAnalyzer)
        ensures
            r.threats@.map_values(|t: ThreatPattern| (t.name@, t.action@, t.severity)) == seq![
                ("Execução em container"@, "exec_create"@, 60u64),
                ("Remoção de container"@, "destroy"@, 40u64),
                ("Montagem de volume"@, "mount"@, 30u64),
            ],
            r.behavior_profiles@ == Seq::<(String, BehaviorProfile)>::empty(),
            r.wf(),
    {
        let mut threats: Vec<ThreatPattern> = Vec::new();
        threats.push(
            ThreatPattern {
                name: String::from_str("Execução em container"),
                action: String::from_str("exec_create"),
                severity: 60,
            },
        );
        threats.push(
            ThreatPattern {
                name: String::from_str("Remoção de container"),
                action: String::from_str("destroy"),
                severity: 40,
            },
        );
        threats.push(
            ThreatPattern {
                name: String::from_str("Montagem de volume"),
                action: String::from_str("mount"),
                severity: 30,
            },
        );
        proof {
            assert(threats@.map_values(|t: ThreatPattern| (t.name@, t.action@, t.severity)) =~= seq![
                ("Execução em container"@, "exec_create"@, 60u64),
                ("Remoção de container"@, "destroy"@, 40u64),
                ("Montagem de volume"@, "mount"@, 30u64),
            ]);
        }
        EventAnalyzer { threats, behavior_profiles: Vec::new() }
    }

    /// Analyze one event: find the first threat pattern it fires, record it
    /// in its actor's behaviour profile — created on first sight — and
    /// return the verdict scored from the updated profile.
    pub fn analyze(&mut self, event: DockerEvent) -> (r: AnalysisResult)
        requires
            old(self).wf(),
        ensures
            final(self).wf(),
            final(self).threats@ == old(self).threats@,
            r.event == event,
            match spec_first_match(old(self).threats@, event.action@) {
                Some(i) => r.pattern_match matches Some(p) && p == old(self).threats@[i],
                None => r.pattern_match is None,
            },
            match spec_find_key(old(self).behavior_profiles@, event.actor_id@) {
                Some(i) => {
                    let updated = BehaviorProfile {
                        event_count: sat_add(old(self).behavior_profiles@[i].1.event_count, 1),
                    };
                    &&& final(self).behavior_profiles@ == old(self).behavior_profiles@.update(
                        i,
                        (old(self).behavior_profiles@[i].0, updated),
                    )
                    &&& r.risk_score == spec_risk_score(updated.event_count)
                    &&& r.recommended_actions@.map_values(|s: String| s@)
                        == spec_recommendations(spec_risk_score(updated.event_count))
                },
                None => {
                    &&& final(self).behavior_profiles@.len() == old(
                        self,
                    ).behavior_profiles@.len() + 1
                    &&& final(self).behavior_profiles@.last().0@ == event.actor_id@
                    &&& final(self).behavior_profiles@.last().1 == (BehaviorProfile {
                        event_count: 1u64,
                    })
                    &&& final(self).behavior_profiles@.drop_last() == old(
                        self,
                    ).behavior_profiles@
                    &&& r.risk_score == spec_risk_score(1)
                    &&& r.recommended_actions@.map_values(|s: String| s@)
                        == spec_recommendations(spec_risk_score(1))
                },
            },
    {
        let pattern_match = self.find_pattern(&event);
        let n = self.behavior_profiles.len();
        let mut i: usize = 0;
        let mut found: Option<usize> = None;
        while i < n
            invariant
                n == self.behavior_profiles@.len(),
                i <= n,
                match found {
                    Some(k) => k < i && self.behavior_profiles@[k as int].0@ == event.actor_id@
                        && forall|j: int|
                        0 <= j < k ==> (#[trigger] self.behavior_profiles@[j].0)@
                            != event.actor_id@,
                    None => forall|j: int|
                        0 <= j < i ==> (#[trigger] self.behavior_profiles@[j].0)@
                            != event.actor_id@,
                },
            decreases n - i,
        {
            if found.is_none() && self.behavior_profiles[i].0.eq(&event.actor_id) {
                found = Some(i);
            }
            i += 1;
        }
        let profile = match found {
            Some(k) => {
                proof {
                    lemma_find_key_hit(self.behavior_profiles@, event.actor_id@, k as int);
                }
                let pair = self.behavior_profiles.remove(k);
                let mut profile = pair.1;
                profile.update(&event);
                self.behavior_profiles.insert(k, (pair.0, profile));
                proof {
                    assert(self.behavior_profiles@ =~= old(self).behavior_profiles@.update(
                        k as int,
                        (old(self).behavior_profiles@[k as int].0, profile),
                    ));
                    assert forall|a: int, b: int|
                        0 <= a < b < self.behavior_profiles@.len() implies (
                    #[trigger] self.behavior_profiles@[a].0)@ != (#[trigger] self.behavior_profiles@[b].0)@ by {
                        assert(old(self).behavior_profiles@[a].0 == self.behavior_profiles@[a].0
                            || a == k as int);
                        assert(old(self).behavior_profiles@[b].0 == self.behavior_profiles@[b].0
                            || b == k as int);
                    }
                }
                profile
            },
            None => {
                proof {
                    lemma_find_key_miss(self.behavior_profiles@, event.actor_id@);
                }
                let mut profile = BehaviorProfile::new();
                profile.update(&event);
                self.behavior_profiles.push((event.actor_id.clone(), profile));
                proof {
                    assert(self.behavior_profiles@.drop_last() =~= old(self).behavior_profiles@);
                }
                profile
            },
        };
        let risk_score = profile.risk_score();
        let recommended_actions = profile.recommend_actions();
        AnalysisResult { event, pattern_match, risk_score, recommended_actions }
    }

    fn find_pattern(&self, event: &DockerEvent) -> (r: Option<ThreatPattern>)
        ensures
            match spec_first_match(self.threats@, event.action@) {
                Some(i) => r matches Some(p) && p == self.threats@[i],
                None => r is None,
            },
    {
        let n = self.threats.len();
        let mut i: usize = 0;
        while i < n
            invariant
                n == self.threats@.len(),
                i <= n,
                forall|j: int| 0 <= j < i ==> !pattern_matches(self.threats@[j], event.action@),
            decreases n - i,
        {
            if self.threats[i].matches(event) {
                proof {
                    lemma_first_match_hit(self.threats@, event.action@, i as int);
                }
                return Some(clone_pattern(&self.threats[i]));
            }
            i += 1;
        }
        proof {
            lemma_first_match_miss(self.threats@, event.action@);
        }
        None
    }
}

} // verus!
