//! Battery samples and the integer code of a battery's state.

use vstd::prelude::*;

verus! {

/// The state a battery reports.
#[derive(Clone, Copy, Debug, PartialEq, Eq, Structural)]
pub enum BatteryState {
    Unknown,
    Charging,
    Discharging,
    Empty,
    Full,
}

/// The code of a state: Full 1, Charging 2, Discharging 3, Empty 0, any
/// other state -1.
pub open spec fn state_code_of(state: BatteryState) -> i32 {
    match state {
        BatteryState::Full => 1i32,
        BatteryState::Charging => 2i32,
        BatteryState::Discharging => 3i32,
        BatteryState::Empty => 0i32,
        _ => -1i32,
    }
}

/// Maps a battery state to its integer code.
pub fn state_code(state: BatteryState) -> (r: i32)
    ensures
        r == state_code_of(state),
{
    match state {
        BatteryState::Full => 1,
        BatteryState::Charging => 2,
        BatteryState::Discharging => 3,
        BatteryState::Empty => 0,
        _ => -1,
    }
}

/// Every state has exactly one code, one of -1, 0, 1, 2, 3; only the four
/// named states have a code other than -1, and distinct named states have
/// distinct codes.
pub proof fn lemma_state_code_total(s: BatteryState, t: BatteryState)
    ensures
        -1 <= state_code_of(s) <= 3,
        state_code_of(s) == -1 <==> s == BatteryState::Unknown,
        state_code_of(s) == state_code_of(t) ==> s == t,
{
}

/// One battery: temperature in Celsius as text (`"X.XX℃"`), charge cycles,
/// state code, charge as a percentage and health as text (`"X.XX%"`). The
/// percentage is of whatever numeric type the caller measures it in.
#[derive(Debug)]
pub struct BatteryData<P> {
    pub temperature: String,
    pub cycle_count: u32,
    pub state: i32,
    pub percentage: P,
    pub state_of_health: String,
}

impl<P> BatteryData<P> {
    /// Builds the sample of a battery that was read; an unknown cycle count
    /// counts as 0.
    pub fn new(
        temperature: String,
        cycle_count: Option<u32>,
        state: BatteryState,
        percentage: P,
        state_of_health: String,
    ) -> (r: BatteryData<P>)
        ensures
            r.temperature == temperature,
            r.cycle_count == match cycle_count {
                Some(c) => c,
                None => 0u32,
            },
            r.state == state_code_of(state),
            r.percentage == percentage,
            r.state_of_health == state_of_health,
    {
        let cycle_count = match cycle_count {
            Some(c) => c,
            None => 0,
        };
        BatteryData { temperature, cycle_count, state: state_code(state), percentage, state_of_health }
    }

    /// The sample of no battery: empty texts and zeroes.
    pub fn empty(zero: P) -> (r: BatteryData<P>)
        ensures
            r.is_empty_sample(zero),
    {
        BatteryData {
            temperature: String::new(),
            cycle_count: 0,
            state: 0,
            percentage: zero,
            state_of_health: String::new(),
        }
    }

    /// The sample is the one of no battery.
    pub open spec fn is_empty_sample(self, zero: P) -> bool {
        &&& self.temperature@ == Seq::<char>::empty()
        &&& self.cycle_count == 0
        &&& self.state == 0
        &&& self.percentage == zero
        &&& self.state_of_health@ == Seq::<char>::empty()
    }
}

/// The battery sample to report: the first battery that could be read, in the
/// order the batteries were enumerated, or the empty sample when there is none.
/// A missing battery is not an error.
pub fn battery_info<P>(readings: Vec<Option<BatteryData<P>>>, zero: P) -> (r: BatteryData<P>)
    ensures
        (forall|k: int| 0 <= k < readings@.len() ==> (#[trigger] readings@[k]) is None)
            ==> r.is_empty_sample(zero),
        forall|k: int| 0 <= k < readings@.len() && (#[trigger] readings@[k]) is Some
            && (forall|j: int| 0 <= j < k ==> (#[trigger] readings@[j]) is None)
            ==> readings@[k] == Some(r),
{
    let ghost orig = readings@;
    let mut rest = readings;
    let n = rest.len();
    let mut i: usize = 0;
    while i < n
        invariant
            n == orig.len(),
            rest@ == orig,
            readings@ == orig,
            0 <= i <= n,
            forall|j: int| 0 <= j < i ==> (#[trigger] orig[j]) is None,
        decreases n - i,
    {
        if rest[i].is_some() {
            let found = rest.remove(i);
            proof {
                assert(orig[i as int] == found);
                assert forall|k: int| 0 <= k < orig.len() && (#[trigger] orig[k]) is Some
                    && (forall|j: int| 0 <= j < k ==> (#[trigger] orig[j]) is None)
                    implies k == i by {
                    if k > i {
                        assert(orig[i as int] is None);
                    }
                }
            }
            match found {
                Some(b) => {
                    assert(orig[i as int] == Some(b));
                    return b;
                },
                None => {
                    return BatteryData::empty(zero);
                },
            }
        }
        i = i + 1;
    }
    BatteryData::empty(zero)
}

} // verus!
