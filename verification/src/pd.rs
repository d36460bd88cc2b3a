//! USB Power Delivery negotiation policy.
//!
//! The sink controller enumerates the power profiles (PDOs) a source
//! advertises; this module owns the pure selection policy over that
//! list — which profile serves a requested voltage, how a request is
//! clamped to the advertised ceiling, how fixed profiles map to the
//! hardware voltage classes, and what the retry chain asks for — while
//! the bus transactions that carry a request out stay outside the
//! library.

use vstd::prelude::*;

verus! {

/// One advertised power profile of the connected source.
#[derive(Clone, Copy, Debug, PartialEq, Eq, Structural)]
pub struct PdoOption {
    /// Position in the source's advertisement (1 to 13).
    pub index: u8,
    /// Voltage ceiling in millivolts.
    pub voltage_mv: u16,
    /// Current ceiling in milliamps.
    pub current_ma: u16,
    /// Maximum power in milliwatts.
    pub max_power_mw: u32,
    /// True for a fixed-voltage profile, false for a variable
    /// (programmable) one that can supply any voltage up to its ceiling.
    pub is_fixed: bool,
}

impl PdoOption {
    /// Profiles at index 8 and above belong to the extended power range.
    pub fn is_extended_range(&self) -> (r: bool)
        ensures
            r == (self.index >= 8),
    {
        self.index >= 8
    }
}

/// The fixed voltage classes the sink hardware can request.
#[derive(Clone, Copy, Debug, PartialEq, Eq, Structural)]
pub enum VoltageClass {
    /// 5 V
    V5,
    /// 9 V
    V9,
    /// 12 V
    V12,
    /// 15 V
    V15,
    /// 20 V
    V20,
    /// 28 V
    V28,
}

/// The millivolt value of a fixed voltage class.
pub open spec fn class_millivolts_spec(c: VoltageClass) -> int {
    match c {
        VoltageClass::V5 => 5000,
        VoltageClass::V9 => 9000,
        VoltageClass::V12 => 12000,
        VoltageClass::V15 => 15000,
        VoltageClass::V20 => 20000,
        VoltageClass::V28 => 28000,
    }
}

/// The millivolt value of a fixed voltage class.
pub fn class_millivolts(c: VoltageClass) -> (r: u16)
    ensures
        r == class_millivolts_spec(c),
{
    match c {
        VoltageClass::V5 => 5000,
        VoltageClass::V9 => 9000,
        VoltageClass::V12 => 12000,
        VoltageClass::V15 => 15000,
        VoltageClass::V20 => 20000,
        VoltageClass::V28 => 28000,
    }
}

/// The fixed class serving a voltage: the nearest class at or above it
/// by the ascending breakpoints, saturating at the highest class.
pub open spec fn fixed_class_spec(voltage_mv: int) -> VoltageClass {
    if voltage_mv <= 6500 {
        VoltageClass::V5
    } else if voltage_mv <= 10500 {
        VoltageClass::V9
    } else if voltage_mv <= 13500 {
        VoltageClass::V12
    } else if voltage_mv <= 17500 {
        VoltageClass::V15
    } else if voltage_mv <= 24000 {
        VoltageClass::V20
    } else {
        VoltageClass::V28
    }
}

/// Maps a voltage to the fixed class that serves it.
pub fn fixed_class_for(voltage_mv: u16) -> (r: VoltageClass)
    ensures
        r == fixed_class_spec(voltage_mv as int),
{
    if voltage_mv <= 6500 {
        VoltageClass::V5
    } else if voltage_mv <= 10500 {
        VoltageClass::V9
    } else if voltage_mv <= 13500 {
        VoltageClass::V12
    } else if voltage_mv <= 17500 {
        VoltageClass::V15
    } else if voltage_mv <= 24000 {
        VoltageClass::V20
    } else {
        VoltageClass::V28
    }
}

/// Whether a profile can serve a requested voltage: its ceiling is at
/// or above the request (a variable profile supplies anything up to its
/// ceiling, a fixed profile is mapped to a class at or above).
pub open spec fn qualifies(p: PdoOption, requested_mv: u16) -> bool {
    p.voltage_mv >= requested_mv
}

/// The voltage a qualifying profile overshoots the request by.  A
/// variable profile supplies the request exactly, so its surplus is
/// zero.
pub open spec fn voltage_surplus(p: PdoOption, requested_mv: u16) -> int {
    if p.is_fixed {
        p.voltage_mv - requested_mv
    } else {
        0
    }
}

/// Strict preference between qualifying profiles: a variable profile
/// beats a fixed one; among profiles of the same kind the smaller
/// surplus wins; a remaining tie goes to the larger power rating.
pub open spec fn prefer(p: PdoOption, q: PdoOption, requested_mv: u16) -> bool {
    ||| (!p.is_fixed && q.is_fixed)
    ||| (p.is_fixed == q.is_fixed && voltage_surplus(p, requested_mv) < voltage_surplus(
        q,
        requested_mv,
    ))
    ||| (p.is_fixed == q.is_fixed && voltage_surplus(p, requested_mv) == voltage_surplus(
        q,
        requested_mv,
    ) && p.max_power_mw > q.max_power_mw)
}

/// What it means for `r` to be the selection the policy makes on a
/// profile list: `None` exactly when no profile qualifies; otherwise
/// the earliest profile no other qualifying profile is preferred to.
pub open spec fn is_selection(s: Seq<PdoOption>, requested_mv: u16, r: Option<usize>) -> bool {
    match r {
        None => forall|j: int| 0 <= j < s.len() ==> !qualifies(s[j], requested_mv),
        Some(i) => {
            &&& i < s.len()
            &&& qualifies(s[i as int], requested_mv)
            &&& forall|j: int|
                0 <= j < s.len() && qualifies(s[j], requested_mv) ==> !prefer(
                    s[j],
                    s[i as int],
                    requested_mv,
                )
            &&& forall|j: int|
                0 <= j < i && qualifies(s[j], requested_mv) ==> prefer(
                    s[i as int],
                    s[j],
                    requested_mv,
                )
        },
    }
}

/// The selection on a given list and request (well defined because the
/// selection is unique).
pub open spec fn selection_of(s: Seq<PdoOption>, requested_mv: u16) -> Option<usize> {
    choose|r: Option<usize>| is_selection(s, requested_mv, r)
}

/// Preference behaves as a strict order through a third profile: if
/// `p` is preferred to `q` and `r` is not, then `p` is preferred to `r`
/// and not the other way round.
proof fn lemma_prefer_step(p: PdoOption, q: PdoOption, r: PdoOption, requested_mv: u16)
    requires
        prefer(p, q, requested_mv),
        !prefer(r, q, requested_mv),
    ensures
        prefer(p, r, requested_mv),
        !prefer(r, p, requested_mv),
{
}

/// The selection policy is deterministic: on one profile list and one
/// requested voltage there is exactly one selection, so repeating the
/// selection always yields the same profile.
pub proof fn lemma_selection_deterministic(
    s: Seq<PdoOption>,
    requested_mv: u16,
    r1: Option<usize>,
    r2: Option<usize>,
)
    requires
        is_selection(s, requested_mv, r1),
        is_selection(s, requested_mv, r2),
    ensures
        r1 == r2,
{
    match (r1, r2) {
        (None, None) => {},
        (None, Some(i2)) => {
            assert(qualifies(s[i2 as int], requested_mv));
            assert(!qualifies(s[i2 as int], requested_mv));
        },
        (Some(i1), None) => {
            assert(qualifies(s[i1 as int], requested_mv));
            assert(!qualifies(s[i1 as int], requested_mv));
        },
        (Some(i1), Some(i2)) => {
            if i1 < i2 {
                assert(prefer(s[i2 as int], s[i1 as int], requested_mv));
                assert(!prefer(s[i2 as int], s[i1 as int], requested_mv));
            } else if i2 < i1 {
                assert(prefer(s[i1 as int], s[i2 as int], requested_mv));
                assert(!prefer(s[i1 as int], s[i2 as int], requested_mv));
            }
        },
    }
}

/// Any witness of the selection property is the selection.
pub proof fn lemma_selection_is_selection_of(s: Seq<PdoOption>, requested_mv: u16, r: Option<
    usize,
>)
    requires
        is_selection(s, requested_mv, r),
    ensures
        selection_of(s, requested_mv) == r,
{
    assert(exists|x: Option<usize>| is_selection(s, requested_mv, x));
    lemma_selection_deterministic(s, requested_mv, r, selection_of(s, requested_mv));
}

/// Exec form of the preference relation.
fn prefer_exec(p: &PdoOption, q: &PdoOption, requested_mv: u16) -> (r: bool)
    requires
        qualifies(*p, requested_mv),
        qualifies(*q, requested_mv),
    ensures
        r == prefer(*p, *q, requested_mv),
{
    let p_surplus: u32 = if p.is_fixed {
        (p.voltage_mv - requested_mv) as u32
    } else {
        0
    };
    let q_surplus: u32 = if q.is_fixed {
        (q.voltage_mv - requested_mv) as u32
    } else {
        0
    };
    (!p.is_fixed && q.is_fixed) || (p.is_fixed == q.is_fixed && p_surplus < q_surplus) || (
    p.is_fixed == q.is_fixed && p_surplus == q_surplus && p.max_power_mw > q.max_power_mw)
}

/// Selects the profile serving a requested voltage: among the profiles
/// whose ceiling reaches the request, a variable profile is preferred
/// to a fixed one, then the smaller voltage surplus, then the larger
/// power rating; a remaining tie keeps the earliest profile.  Returns
/// `None` exactly when no profile qualifies.
pub fn select_pdo(pdos: &Vec<PdoOption>, requested_mv: u16) -> (r: Option<usize>)
    ensures
        is_selection(pdos@, requested_mv, r),
{
    let mut best: Option<usize> = None;
    let mut k: usize = 0;
    while k < pdos.len()
        invariant
            k <= pdos.len(),
            is_selection(pdos@.take(k as int), requested_mv, best),
            best matches Some(b) ==> b < k,
        decreases pdos.len() - k,
    {
        let ghost prefix = pdos@.take(k as int);
        let ghost next_prefix = pdos@.take(k as int + 1);
        proof {
            assert(next_prefix.drop_last() =~= prefix);
            assert(next_prefix.last() == pdos@[k as int]);
            assert forall|j: int| 0 <= j < k implies next_prefix[j] == prefix[j] by {}
        }
        let p = pdos[k];
        if p.voltage_mv >= requested_mv {
            match best {
                None => {
                    best = Some(k);
                },
                Some(b) => {
                    if prefer_exec(&p, &pdos[b], requested_mv) {
                        proof {
                            assert forall|j: int|
                                0 <= j < k && qualifies(pdos@[j], requested_mv) implies prefer(
                                pdos@[k as int],
                                pdos@[j],
                                requested_mv,
                            ) && !prefer(pdos@[j], pdos@[k as int], requested_mv) by {
                                assert(prefix[j] == pdos@[j]);
                                assert(prefix[b as int] == pdos@[b as int]);
                                assert(!prefer(prefix[j], prefix[b as int], requested_mv));
                                lemma_prefer_step(
                                    pdos@[k as int],
                                    pdos@[b as int],
                                    pdos@[j],
                                    requested_mv,
                                );
                            }
                        }
                        best = Some(k);
                    }
                },
            }
        }
        k = k + 1;
        proof {
            assert(is_selection(pdos@.take(k as int), requested_mv, best));
        }
    }
    proof {
        assert(pdos@.take(pdos@.len() as int) =~= pdos@);
    }
    best
}

/// The largest voltage ceiling over a profile list, 0 when it is empty.
pub open spec fn max_voltage_of(s: Seq<PdoOption>) -> int
    decreases s.len(),
{
    if s.len() == 0 {
        0
    } else {
        let rest = max_voltage_of(s.drop_last());
        if s.last().voltage_mv > rest {
            s.last().voltage_mv as int
        } else {
            rest
        }
    }
}

/// The largest current ceiling over a profile list, 0 when it is empty.
pub open spec fn max_current_of(s: Seq<PdoOption>) -> int
    decreases s.len(),
{
    if s.len() == 0 {
        0
    } else {
        let rest = max_current_of(s.drop_last());
        if s.last().current_ma > rest {
            s.last().current_ma as int
        } else {
            rest
        }
    }
}

/// Some profile attains the maximum voltage of a non-empty list.
pub proof fn lemma_max_voltage_attained(s: Seq<PdoOption>)
    requires
        s.len() > 0,
    ensures
        exists|j: int| 0 <= j < s.len() && s[j].voltage_mv == max_voltage_of(s),
    decreases s.len(),
{
    if s.len() == 1 {
        assert(s.drop_last().len() == 0);
        assert(max_voltage_of(s.drop_last()) == 0);
        assert(s.last() == s[0]);
        assert(s[0].voltage_mv == max_voltage_of(s));
    } else if s.last().voltage_mv > max_voltage_of(s.drop_last()) {
        assert(s[s.len() - 1].voltage_mv == max_voltage_of(s));
    } else {
        lemma_max_voltage_attained(s.drop_last());
        let j = choose|j: int|
            0 <= j < s.drop_last().len() && s.drop_last()[j].voltage_mv == max_voltage_of(
                s.drop_last(),
            );
        assert(s[j].voltage_mv == max_voltage_of(s));
    }
}

/// One request the negotiation policy can issue.
#[derive(Clone, Copy, Debug, PartialEq, Eq, Structural)]
pub enum PdRequest {
    /// Request a fixed voltage class.
    FixedClass(VoltageClass),
    /// Request an exact voltage from a variable profile, under a
    /// current ceiling.
    Variable {
        /// Exact requested voltage in millivolts.
        voltage_mv: u16,
        /// Current ceiling in milliamps.
        current_limit_ma: u16,
    },
}

/// The current ceiling of a variable request by retry attempt: the
/// first attempt asks for 5 A, the retry falls back to 3 A.
pub open spec fn retry_current_ma(attempt: u8) -> u16 {
    if attempt == 0 {
        5000
    } else {
        3000
    }
}

/// A requested voltage after the configured offset, clamped into
/// `[0, ceiling]`.
pub open spec fn clamped_request_mv(setpoint_mv: int, offset_mv: int, ceiling_mv: int) -> int {
    let req = setpoint_mv + offset_mv;
    if req > ceiling_mv {
        ceiling_mv
    } else if req < 0 {
        0
    } else {
        req
    }
}

/// What the negotiation policy issues for a setpoint:
/// a non-positive setpoint idles the output on the lowest fixed class;
/// otherwise the offset request is clamped to the advertised ceiling,
/// below the 5 V floor the lowest fixed class is issued, and from 5 V
/// up the selected profile decides — a variable profile carries the
/// exact clamped voltage under the attempt's current ceiling, a fixed
/// profile maps its own ceiling to a voltage class.  `None` only when
/// no profile qualifies.
pub open spec fn plan_spec(
    s: Seq<PdoOption>,
    setpoint_mv: int,
    offset_mv: int,
    attempt: u8,
) -> Option<PdRequest> {
    if setpoint_mv <= 0 {
        Some(PdRequest::FixedClass(VoltageClass::V5))
    } else {
        let req = clamped_request_mv(setpoint_mv, offset_mv, max_voltage_of(s));
        if req < 5000 {
            Some(PdRequest::FixedClass(VoltageClass::V5))
        } else {
            match selection_of(s, req as u16) {
                None => None,
                Some(i) => if !s[i as int].is_fixed {
                    Some(
                        PdRequest::Variable {
                            voltage_mv: req as u16,
                            current_limit_ma: retry_current_ma(attempt),
                        },
                    )
                } else {
                    Some(PdRequest::FixedClass(fixed_class_spec(s[i as int].voltage_mv as int)))
                },
            }
        }
    }
}

#[verifier::external_type_specification]
#[verifier::external_body]
/// Declares the sink-controller driver type so its values can be held
/// and passed through; the library reads it only through the trusted
/// wrappers below.
pub struct ExAp33772s(ap33772s_driver::AP33772S);

/// The profile list a driver value holds, as the library's own profile
/// records.  Defined by the trusted wrappers below, which convert the
/// driver's enumerated entries field for field.
pub uninterp spec fn driver_pdos(d: ap33772s_driver::AP33772S) -> Seq<PdoOption>;

/// Drives the USB-PD sink controller: the driver itself carries the
/// enumerated profile list, and the negotiator owns the pure policy
/// over it.  Initialisation, protection configuration and the request
/// transactions run on `driver` over the bus, outside the library.
pub struct PdNegotiator {
    /// The sink-controller driver; its bus operations are performed by
    /// the caller.
    pub driver: ap33772s_driver::AP33772S,
}

impl PdNegotiator {
    /// Relies on `ap33772s_driver::AP33772S::new`: a fresh driver holds
    /// no enumerated profiles.
    #[verifier::external_body]
    pub fn new() -> (r: PdNegotiator)
        ensures
            driver_pdos(r.driver) == Seq::<PdoOption>::empty(),
    {
        PdNegotiator { driver: ap33772s_driver::AP33772S::new() }
    }

    /// Relies on `ap33772s_driver::AP33772S::get_pdo_list`: the
    /// enumerated profiles in advertisement order, each converted field
    /// for field (index, voltage, current, power, fixed flag).
    #[verifier::external_body]
    pub fn pdo_options(&self) -> (r: Vec<PdoOption>)
        ensures
            r@ == driver_pdos(self.driver),
    {
        let mut out = Vec::new();
        for p in self.driver.get_pdo_list() {
            out.push(
                PdoOption {
                    index: p.pdo_index,
                    voltage_mv: p.voltage_mv,
                    current_ma: p.current_ma,
                    max_power_mw: p.max_power_mw,
                    is_fixed: p.is_fixed,
                },
            );
        }
        out
    }

    /// Relies on `ap33772s_driver::AP33772S::get_max_voltage`: the
    /// largest voltage ceiling over the enumerated profiles, 0 when
    /// none was enumerated.
    #[verifier::external_body]
    pub fn source_max_voltage_mv(&self) -> (r: u16)
        ensures
            r == max_voltage_of(driver_pdos(self.driver)),
    {
        self.driver.get_max_voltage()
    }

    /// The hard ceilings the connected source advertises: the maximum
    /// voltage and the maximum current over the enumerated profiles.
    /// Every setpoint is clamped against the voltage ceiling before it
    /// is accepted.
    pub fn get_pdo_limits(&self) -> (r: (u16, u16))
        ensures
            r.0 == max_voltage_of(driver_pdos(self.driver)),
            r.1 == max_current_of(driver_pdos(self.driver)),
    {
        let pdos = self.pdo_options();
        let mut max_mv: u16 = 0;
        let mut max_ma: u16 = 0;
        let mut k: usize = 0;
        while k < pdos.len()
            invariant
                k <= pdos.len(),
                pdos@ == driver_pdos(self.driver),
                max_mv == max_voltage_of(pdos@.take(k as int)),
                max_ma == max_current_of(pdos@.take(k as int)),
            decreases pdos.len() - k,
        {
            proof {
                assert(pdos@.take(k as int + 1).drop_last() =~= pdos@.take(k as int));
                assert(pdos@.take(k as int + 1).last() == pdos@[k as int]);
            }
            if pdos[k].voltage_mv > max_mv {
                max_mv = pdos[k].voltage_mv;
            }
            if pdos[k].current_ma > max_ma {
                max_ma = pdos[k].current_ma;
            }
            k = k + 1;
        }
        proof {
            assert(pdos@.take(pdos@.len() as int) =~= pdos@);
        }
        (max_mv, max_ma)
    }

    /// Plans the request serving a setpoint: a non-positive setpoint
    /// idles the output on the lowest fixed class; otherwise the
    /// offset request is clamped to the advertised ceiling and the
    /// selection policy picks the profile.  The plan always exists
    /// because the clamped request never exceeds the ceiling some
    /// profile attains.
    pub fn plan_request(&self, setpoint_mv: i64, pd_offset_mv: i64, attempt: u8) -> (r: PdRequest)
        requires
            -1_000_000 <= setpoint_mv <= 1_000_000,
            -1_000_000 <= pd_offset_mv <= 1_000_000,
        ensures
            Some(r) == plan_spec(
                driver_pdos(self.driver),
                setpoint_mv as int,
                pd_offset_mv as int,
                attempt,
            ),
    {
        let ghost s = driver_pdos(self.driver);
        if setpoint_mv <= 0 {
            return PdRequest::FixedClass(VoltageClass::V5);
        }
        let ceiling: u16 = self.source_max_voltage_mv();
        let mut req: i64 = setpoint_mv + pd_offset_mv;
        if req > ceiling as i64 {
            req = ceiling as i64;
        }
        if req < 0 {
            req = 0;
        }
        assert(req == clamped_request_mv(setpoint_mv as int, pd_offset_mv as int, ceiling as int));
        if req < 5000 {
            return PdRequest::FixedClass(VoltageClass::V5);
        }
        let req_mv: u16 = req as u16;
        let pdos = self.pdo_options();
        let sel = select_pdo(&pdos, req_mv);
        proof {
            lemma_selection_is_selection_of(s, req_mv, sel);
            if sel is None {
                assert(max_voltage_of(s) == ceiling);
                assert(s.len() > 0) by {
                    if s.len() == 0 {
                        assert(max_voltage_of(s) == 0);
                    }
                }
                lemma_max_voltage_attained(s);
                let j = choose|j: int| 0 <= j < s.len() && s[j].voltage_mv == max_voltage_of(s);
                assert(qualifies(s[j], req_mv));
                assert(false);
            }
        }
        if let Some(i) = sel {
            if !pdos[i].is_fixed {
                let current_limit_ma: u16 = if attempt == 0 {
                    5000
                } else {
                    3000
                };
                PdRequest::Variable { voltage_mv: req_mv, current_limit_ma }
            } else {
                PdRequest::FixedClass(fixed_class_for(pdos[i].voltage_mv))
            }
        } else {
            PdRequest::FixedClass(VoltageClass::V5)
        }
    }
}

} // verus!

