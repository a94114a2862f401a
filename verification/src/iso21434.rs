//! ISO/SAE 21434 threat-risk rating: attack feasibility and impact, the risk
//! level they determine, and filtering threats by a minimum risk.
use vstd::prelude::*;

verus! {

/// Attack feasibility rating, in increasing order.
#[derive(Debug, Clone, Copy, PartialEq, Eq, PartialOrd, Ord, Structural)]
pub enum Feasibility {
    Low,
    Medium,
    High,
    Critical,
}

/// Impact rating, in increasing order.
#[derive(Debug, Clone, Copy, PartialEq, Eq, PartialOrd, Ord, Structural)]
pub enum Impact {
    Negligible,
    Moderate,
    Major,
    Severe,
}

/// Risk level, in increasing order.
#[derive(Debug, Clone, Copy, PartialEq, Eq, Structural)]
pub enum RiskLevel {
    Low,
    Medium,
    High,
    Critical,
}

pub open spec fn feasibility_rank(f: Feasibility) -> int {
    match f {
        Feasibility::Low => 0,
        Feasibility::Medium => 1,
        Feasibility::High => 2,
        Feasibility::Critical => 3,
    }
}

pub open spec fn impact_rank(i: Impact) -> int {
    match i {
        Impact::Negligible => 0,
        Impact::Moderate => 1,
        Impact::Major => 2,
        Impact::Severe => 3,
    }
}

pub open spec fn risk_rank(r: RiskLevel) -> int {
    match r {
        RiskLevel::Low => 0,
        RiskLevel::Medium => 1,
        RiskLevel::High => 2,
        RiskLevel::Critical => 3,
    }
}

impl Feasibility {
    /// The rating's lower-case name.
    pub fn as_str(&self) -> (r: &'static str)
        ensures
            r@ == (match *self {
                Feasibility::Low => "low"@,
                Feasibility::Medium => "medium"@,
                Feasibility::High => "high"@,
                Feasibility::Critical => "critical"@,
            }),
    {
        match self {
            Feasibility::Low => "low",
            Feasibility::Medium => "medium",
            Feasibility::High => "high",
            Feasibility::Critical => "critical",
        }
    }
}

impl Impact {
    /// The rating's lower-case name.
    pub fn as_str(&self) -> (r: &'static str)
        ensures
            r@ == (match *self {
                Impact::Negligible => "negligible"@,
                Impact::Moderate => "moderate"@,
                Impact::Major => "major"@,
                Impact::Severe => "severe"@,
            }),
    {
        match self {
            Impact::Negligible => "negligible",
            Impact::Moderate => "moderate",
            Impact::Major => "major",
            Impact::Severe => "severe",
        }
    }
}

/// The risk matrix: negligible impact or low feasibility is low risk; medium
/// feasibility is medium against moderate impact and high otherwise; high
/// feasibility is high against moderate impact and critical otherwise;
/// critical feasibility is critical.
pub open spec fn risk_of(f: Feasibility, i: Impact) -> RiskLevel {
    match (f, i) {
        (_, Impact::Negligible) => RiskLevel::Low,
        (Feasibility::Low, _) => RiskLevel::Low,
        (Feasibility::Medium, Impact::Moderate) => RiskLevel::Medium,
        (Feasibility::Medium, _) => RiskLevel::High,
        (Feasibility::High, Impact::Moderate) => RiskLevel::High,
        (Feasibility::High, _) => RiskLevel::Critical,
        (Feasibility::Critical, _) => RiskLevel::Critical,
    }
}

/// The risk level of a feasibility / impact pair.
pub fn risk_level(f: Feasibility, i: Impact) -> (r: RiskLevel)
    ensures
        r == risk_of(f, i),
{
    match (f, i) {
        (_, Impact::Negligible) => RiskLevel::Low,
        (Feasibility::Low, _) => RiskLevel::Low,
        (Feasibility::Medium, Impact::Moderate) => RiskLevel::Medium,
        (Feasibility::Medium, _) => RiskLevel::High,
        (Feasibility::High, Impact::Moderate) => RiskLevel::High,
        (Feasibility::High, _) => RiskLevel::Critical,
        (Feasibility::Critical, _) => RiskLevel::Critical,
    }
}

/// The risk matrix cell by cell: negligible impact is always `Low` risk, and
/// so is low feasibility; medium feasibility is `Medium` risk at moderate
/// impact and `High` above; high feasibility is `High` at moderate impact and
/// `Critical` at major or severe impact; critical feasibility is `Critical`
/// at any non-negligible impact.
pub proof fn lemma_risk_matrix(f: Feasibility, i: Impact)
    ensures
        i == Impact::Negligible ==> risk_of(f, i) == RiskLevel::Low,
        f == Feasibility::Low ==> risk_of(f, i) == RiskLevel::Low,
        risk_of(Feasibility::Medium, Impact::Moderate) == RiskLevel::Medium,
        risk_of(Feasibility::Medium, Impact::Major) == RiskLevel::High,
        risk_of(Feasibility::Medium, Impact::Severe) == RiskLevel::High,
        risk_of(Feasibility::High, Impact::Moderate) == RiskLevel::High,
        risk_of(Feasibility::High, Impact::Major) == RiskLevel::Critical,
        risk_of(Feasibility::High, Impact::Severe) == RiskLevel::Critical,
        i != Impact::Negligible ==> risk_of(Feasibility::Critical, i) == RiskLevel::Critical,
{
}

/// Risk never decreases when feasibility or impact increases.
pub proof fn lemma_risk_monotone(f1: Feasibility, i1: Impact, f2: Feasibility, i2: Impact)
    requires
        feasibility_rank(f1) <= feasibility_rank(f2),
        impact_rank(i1) <= impact_rank(i2),
    ensures
        risk_rank(risk_of(f1, i1)) <= risk_rank(risk_of(f2, i2)),
{
}

/// A rated threat.
#[derive(Debug, Clone)]
pub struct Threat {
    pub id: String,
    pub description: String,
    pub feasibility: Feasibility,
    pub impact: Impact,
}

pub open spec fn threat_risk(t: Threat) -> RiskLevel {
    risk_of(t.feasibility, t.impact)
}

impl Threat {
    /// The threat's risk level.
    pub fn risk_level(&self) -> (r: RiskLevel)
        ensures
            r == threat_risk(*self),
    {
        risk_level(self.feasibility, self.impact)
    }
}

fn rank(r: RiskLevel) -> (n: u8)
    ensures
        n == risk_rank(r),
{
    match r {
        RiskLevel::Low => 0,
        RiskLevel::Medium => 1,
        RiskLevel::High => 2,
        RiskLevel::Critical => 3,
    }
}

/// The threats of `threats` whose risk is at least `min`, in order.
pub open spec fn threats_at_least(threats: Seq<Threat>, min: RiskLevel) -> Seq<Threat>
    decreases threats.len(),
{
    if threats.len() == 0 {
        Seq::empty()
    } else {
        let rest = threats_at_least(threats.drop_last(), min);
        if risk_rank(threat_risk(threats.last())) >= risk_rank(min) {
            rest.push(threats.last())
        } else {
            rest
        }
    }
}

/// Every threat whose risk level is at least `min`, in their original order.
pub fn filter_by_risk(threats: &[Threat], min: RiskLevel) -> (r: Vec<&Threat>)
    ensures
        r@.map_values(|t: &Threat| *t) == threats_at_least(threats@, min),
{
    let mut out: Vec<&Threat> = Vec::new();
    let mut i: usize = 0;
    while i < threats.len()
        invariant
            i <= threats@.len(),
            out@.map_values(|t: &Threat| *t) == threats_at_least(threats@.subrange(0, i as int), min),
        decreases threats.len() - i,
    {
        let t = &threats[i];
        let ghost before = out@;
        if rank(t.risk_level()) >= rank(min) {
            out.push(t);
            assert(out@ == before.push(t));
        }
        assert(threats@.subrange(0, i + 1).drop_last() =~= threats@.subrange(0, i as int));
        i = i + 1;
        assert(out@.map_values(|t: &Threat| *t) =~= threats_at_least(threats@.subrange(0, i as int), min));
    }
    assert(threats@.subrange(0, threats@.len() as int) =~= threats@);
    out
}

} // verus!
