use vstd::prelude::*;
use crate::bits::{bit32, bit_test32, field32, get_field32, set_field32, with_field32, with_bit_set32,
    lemma_field32_read_write, lemma_field32_disjoint, lemma_bit32_zero, lemma_two_bit_code32};
use crate::peripherals::BcmHost;
use crate::peripherals::mmio::{MMIO, RegisterWrite, peripheral_register};

verus! {

/// Offset of the GPIO block in the peripheral window.
pub const GPIO_BASE: usize = 0x200000;

/// Number of GPIO pins.
pub const PIN_COUNT: u8 = 54;

/// Whether pin `p` occurs in `pins`.
pub open spec fn listed(pins: Seq<u8>, p: int) -> bool {
    exists|i: int| 0 <= i < pins.len() && pins[i] == p
}

/// A set of GPIO pins: bit `p` of the first word for pins 0 to 31, bit `p - 32` of the
/// second for pins 32 to 53.
#[derive(Clone, Copy, PartialEq, Eq, Structural)]
pub struct PinSet(pub u32, pub u32);

impl PinSet {
    /// Whether pin `p` is in the set.
    pub open spec fn has(self, p: int) -> bool {
        if 0 <= p < 32 {
            bit32(self.0, p as u32)
        } else if 32 <= p < 54 {
            bit32(self.1, (p - 32) as u32)
        } else {
            false
        }
    }

    /// The set of the listed pins; every pin must be below 54.
    pub fn select(pins: &[u8]) -> (r: PinSet)
        requires
            forall|i: int| 0 <= i < pins@.len() ==> pins@[i] < 54,
        ensures
            forall|p: u32| p < 32 ==> (bit32(r.0, p) <==> listed(pins@, p as int)),
            forall|p: u32| p < 32 ==> (bit32(r.1, p) <==> listed(pins@, p + 32)),
            forall|p: int| 0 <= p < 54 ==> (r.has(p) <==> listed(pins@, p)),
    {
        let mut low: u32 = 0;
        let mut high: u32 = 0;
        let mut i: usize = 0;
        proof {
            lemma_bit32_zero();
        }
        while i < pins.len()
            invariant
                i <= pins@.len(),
                forall|j: int| 0 <= j < pins@.len() ==> pins@[j] < 54,
                forall|p: u32| p < 32 ==> (bit32(low, p) <==> listed(pins@.subrange(0, i as int), p as int)),
                forall|p: u32| p < 32 ==> (bit32(high, p) <==> listed(pins@.subrange(0, i as int), p + 32)),
            decreases pins@.len() - i,
        {
            let pin = pins[i];
            let ghost before = pins@.subrange(0, i as int);
            let ghost after = pins@.subrange(0, i + 1);
            assert forall|q: int| listed(after, q) <==> (listed(before, q) || q == pin) by {
                if listed(after, q) {
                    let j = choose|j: int| 0 <= j < after.len() && after[j] == q;
                    if j < i as int {
                        assert(before[j] == q);
                    }
                }
                if listed(before, q) {
                    let j = choose|j: int| 0 <= j < before.len() && before[j] == q;
                    assert(after[j] == q);
                }
                if q == pin {
                    assert(after[i as int] == q);
                }
            }
            if pin < 32 {
                low = with_bit_set32(low, pin as u32);
            } else {
                high = with_bit_set32(high, (pin - 32) as u32);
            }
            i += 1;
        }
        assert(pins@.subrange(0, pins@.len() as int) =~= pins@);
        PinSet(low, high)
    }
}

/// The pins of `set` from `pos` up to 53, in increasing order.
pub open spec fn pins_from(set: PinSet, pos: int) -> Seq<int>
    decreases 54 - pos,
{
    if pos >= 54 || pos < 0 {
        Seq::empty()
    } else if set.has(pos) {
        seq![pos] + pins_from(set, pos + 1)
    } else {
        pins_from(set, pos + 1)
    }
}

/// The pins of a set from `pos` on come in strictly increasing order, and are exactly
/// the pins of the set from `pos` to 53.
pub proof fn lemma_pins_from(set: PinSet, pos: int)
    requires
        0 <= pos,
    ensures
        forall|i: int, j: int| 0 <= i < j < pins_from(set, pos).len()
            ==> #[trigger] pins_from(set, pos)[i] < #[trigger] pins_from(set, pos)[j],
        forall|x: int| #[trigger] pins_from(set, pos).contains(x) <==> pos <= x < 54 && set.has(x),
    decreases 54 - pos,
{
    if pos < 54 {
        lemma_pins_from(set, pos + 1);
        let rest = pins_from(set, pos + 1);
        let s = pins_from(set, pos);
        if set.has(pos) {
            assert(s =~= seq![pos] + rest);
            assert forall|i: int, j: int| 0 <= i < j < s.len() implies #[trigger] s[i] < #[trigger] s[j] by {
                assert(s[j] == rest[j - 1]);
                assert(rest.contains(rest[j - 1]));
                if i > 0 {
                    assert(s[i] == rest[i - 1]);
                }
            }
            assert forall|x: int| #[trigger] s.contains(x) <==> pos <= x < 54 && set.has(x) by {
                if s.contains(x) && x != pos {
                    let k = choose|k: int| 0 <= k < s.len() && s[k] == x;
                    assert(rest[k - 1] == x);
                    assert(rest.contains(x));
                }
                if pos < x < 54 && set.has(x) {
                    assert(rest.contains(x));
                    let k = choose|k: int| 0 <= k < rest.len() && rest[k] == x;
                    assert(s[k + 1] == x);
                }
                if x == pos && set.has(x) {
                    assert(s[0] == x);
                }
            }
        } else {
            assert forall|x: int| #[trigger] s.contains(x) <==> pos <= x < 54 && set.has(x) by {
                assert(rest.contains(x) <==> pos + 1 <= x < 54 && set.has(x));
            }
        }
    }
}

/// Iterating the set that `select` makes of `pins` gives each listed pin once, in
/// increasing order, and nothing after: the pins `PinSelectIterator::next` returns from
/// position 0 on are `pins_from(set, 0)`, which is strictly increasing and holds exactly
/// the listed pins.
pub proof fn lemma_select_iteration(pins: Seq<u8>, set: PinSet)
    requires
        forall|i: int| 0 <= i < pins.len() ==> pins[i] < 54,
        forall|p: int| 0 <= p < 54 ==> (set.has(p) <==> listed(pins, p)),
    ensures
        forall|i: int, j: int| 0 <= i < j < pins_from(set, 0).len()
            ==> #[trigger] pins_from(set, 0)[i] < #[trigger] pins_from(set, 0)[j],
        forall|x: int| #[trigger] pins_from(set, 0).contains(x) <==> listed(pins, x),
        pins_from(set, 54).len() == 0,
{
    lemma_pins_from(set, 0);
    assert forall|x: int| #[trigger] pins_from(set, 0).contains(x) <==> listed(pins, x) by {
        if listed(pins, x) {
            let j = choose|j: int| 0 <= j < pins.len() && pins[j] == x;
            assert(pins[j] < 54);
        }
    }
}

/// Walks the pins of a set in increasing order.
pub struct PinSelectIterator {
    pub select: PinSet,
    pub position: u8,
}

impl PinSelectIterator {
    pub fn new(select: PinSet) -> (r: Self)
        ensures
            r.select == select,
            r.position == 0,
    {
        PinSelectIterator { select, position: 0 }
    }

    /// The lowest pin of the set at or above the position, if any below 54; the position
    /// moves past it (to 54 when there is none).
    pub fn next(&mut self) -> (r: Option<u8>)
        ensures
            final(self).select == old(self).select,
            final(self).position <= 54 || final(self).position == old(self).position,
            match r {
                Some(p) => {
                    &&& old(self).position <= p < 54
                    &&& old(self).select.has(p as int)
                    &&& forall|q: int| old(self).position <= q < p ==> !old(self).select.has(q)
                    &&& final(self).position == p + 1
                },
                None => {
                    &&& forall|q: int| old(self).position <= q < 54 ==> !old(self).select.has(q)
                    &&& final(self).position == if old(self).position < 54 { 54 } else { old(self).position }
                },
            },
            match r {
                Some(p) => pins_from(old(self).select, old(self).position as int)
                    == seq![p as int] + pins_from(old(self).select, final(self).position as int),
                None => pins_from(old(self).select, old(self).position as int).len() == 0
                    && pins_from(old(self).select, final(self).position as int).len() == 0,
            },
    {
        while self.position < 54
            invariant
                self.select == old(self).select,
                old(self).position <= self.position || old(self).position >= 54,
                old(self).position < 54 ==> self.position <= 54,
                old(self).position >= 54 ==> self.position == old(self).position,
                forall|q: int| old(self).position <= q < self.position ==> !old(self).select.has(q),
                pins_from(old(self).select, old(self).position as int) == pins_from(old(self).select, self.position as int),
            decreases 54 - self.position,
        {
            let pos = self.position;
            self.position = self.position + 1;
            if pos < 32 {
                if bit_test32(self.select.0, pos as u32) {
                    return Some(pos);
                }
            } else {
                if bit_test32(self.select.1, (pos - 32) as u32) {
                    return Some(pos);
                }
            }
        }
        None
    }
}

/// Pull-up or pull-down setting of a pin.
#[derive(Clone, Copy, PartialEq, Eq, Structural)]
pub enum Resistor {
    NoPull,
    PullDown,
    PullUp,
    Reserved,
}

impl Resistor {
    /// The BCM2837 pull control encoding: none 0, down 1, up 2.
    pub open spec fn spec_bcm2837_code(self) -> u32 {
        match self {
            Resistor::NoPull => 0,
            Resistor::PullDown => 1,
            Resistor::PullUp => 2,
            Resistor::Reserved => 3,
        }
    }

    /// The BCM2711 pull control encoding: none 0, up 1, down 2.
    pub open spec fn spec_bcm2711_code(self) -> u32 {
        match self {
            Resistor::NoPull => 0,
            Resistor::PullUp => 1,
            Resistor::PullDown => 2,
            Resistor::Reserved => 3,
        }
    }

    pub fn bcm2837_code(&self) -> (r: u32)
        ensures
            r == self.spec_bcm2837_code(),
    {
        match self {
            Resistor::NoPull => 0,
            Resistor::PullDown => 1,
            Resistor::PullUp => 2,
            Resistor::Reserved => 3,
        }
    }

    pub fn bcm2711_code(&self) -> (r: u32)
        ensures
            r == self.spec_bcm2711_code(),
    {
        match self {
            Resistor::NoPull => 0,
            Resistor::PullUp => 1,
            Resistor::PullDown => 2,
            Resistor::Reserved => 3,
        }
    }
}

/// The pull control codes: on the BCM2837 (GPPUD) no pull is 0b00, pull-down 0b01,
/// pull-up 0b10; on the BCM2711 no pull is 0b00, pull-up 0b01, pull-down 0b10; the
/// reserved setting is 0b11 on both. Distinct settings have distinct codes, so setting
/// no pull writes 0 and clears a pull-up or pull-down.
pub proof fn lemma_pull_codes(a: Resistor, b: Resistor)
    ensures
        Resistor::NoPull.spec_bcm2837_code() == 0b00,
        Resistor::PullDown.spec_bcm2837_code() == 0b01,
        Resistor::PullUp.spec_bcm2837_code() == 0b10,
        Resistor::Reserved.spec_bcm2837_code() == 0b11,
        Resistor::NoPull.spec_bcm2711_code() == 0b00,
        Resistor::PullUp.spec_bcm2711_code() == 0b01,
        Resistor::PullDown.spec_bcm2711_code() == 0b10,
        Resistor::Reserved.spec_bcm2711_code() == 0b11,
        a != b ==> a.spec_bcm2837_code() != b.spec_bcm2837_code() && a.spec_bcm2711_code() != b.spec_bcm2711_code(),
{
}

/// One step of a register sequence: a write, or a wait of some CPU cycles.
#[derive(Clone, Copy, PartialEq, Eq, Structural)]
pub enum GpioStep {
    Write(RegisterWrite),
    WaitCycles(u32),
}

/// The GPIO controller.
pub struct Gpio();

/// Offsets of the BCM2837 pull-up/down register and its two clock registers.
pub const GPPUD: usize = 0x94;
pub const GPPUDCLK0: usize = 0x98;
pub const GPPUDCLK1: usize = 0x9c;

/// Offset of the first BCM2711 pull control register; four follow one another.
pub const GPIO_PUP_PDN_CNTRL_REG0: usize = 0xe4;

/// The pull control registers after setting the pins of `pins` to `code`: in bank `b`,
/// the two bits of pin `16 b + k` sit at bit `2 k`.
pub open spec fn pull_field(state: u32, k: int) -> u32 {
    field32(state, (2 * k) as u32, 2)
}

/// Whether setting the pins of `pins` in bank `b` to `code` changes the bank.
pub open spec fn bank_changes(old_state: u32, pins: PinSet, b: int, code: u32) -> bool {
    exists|k: int| 0 <= k < 16 && pins.has(16 * b + k) && pull_field(old_state, k) != code
}

impl Gpio {
    /// The BCM2837 sequence that sets the pull resistors of `pins`: signal, wait,
    /// clock the pins, wait, then remove signal and clock.
    pub fn set_pull_resistors(host: &BcmHost, pins: PinSet, resistor: Resistor) -> (r: Vec<GpioStep>)
        requires
            host.wf(),
        ensures
            r@ == seq![
                GpioStep::Write(RegisterWrite { address: peripheral_register(*host, GPIO_BASE, GPPUD) as usize, value: resistor.spec_bcm2837_code() }),
                GpioStep::WaitCycles(150),
                GpioStep::Write(RegisterWrite { address: peripheral_register(*host, GPIO_BASE, GPPUDCLK0) as usize, value: pins.0 }),
                GpioStep::Write(RegisterWrite { address: peripheral_register(*host, GPIO_BASE, GPPUDCLK1) as usize, value: pins.1 }),
                GpioStep::WaitCycles(150),
                GpioStep::Write(RegisterWrite { address: peripheral_register(*host, GPIO_BASE, GPPUD) as usize, value: 0 }),
                GpioStep::Write(RegisterWrite { address: peripheral_register(*host, GPIO_BASE, GPPUDCLK0) as usize, value: 0 }),
                GpioStep::Write(RegisterWrite { address: peripheral_register(*host, GPIO_BASE, GPPUDCLK1) as usize, value: 0 }),
            ],
    {
        let pud = MMIO::<GPIO_BASE, GPPUD>();
        let clk0 = MMIO::<GPIO_BASE, GPPUDCLK0>();
        let clk1 = MMIO::<GPIO_BASE, GPPUDCLK1>();
        let mut steps: Vec<GpioStep> = Vec::new();
        steps.push(GpioStep::Write(pud.write(host, resistor.bcm2837_code())));
        steps.push(GpioStep::WaitCycles(150));
        steps.push(GpioStep::Write(clk0.write(host, pins.0)));
        steps.push(GpioStep::Write(clk1.write(host, pins.1)));
        steps.push(GpioStep::WaitCycles(150));
        steps.push(GpioStep::Write(pud.write(host, 0)));
        steps.push(GpioStep::Write(clk0.write(host, 0)));
        steps.push(GpioStep::Write(clk1.write(host, 0)));
        steps
    }

    /// The BCM2711 pull control register of `pin`'s bank after setting the pin to
    /// `resistor`, given its current value; `None` when the value would not change.
    pub fn set_pull_resistor(pin: u8, resistor: Resistor, old_state: u32) -> (r: Option<u32>)
        requires
            pin < 54,
        ensures
            pull_field(old_state, (pin % 16) as int) == resistor.spec_bcm2711_code() ==> r is None,
            pull_field(old_state, (pin % 16) as int) != resistor.spec_bcm2711_code()
                ==> r == Some(with_field32(old_state, (2 * (pin % 16)) as u32, 2, resistor.spec_bcm2711_code())),
    {
        let offset: u32 = (2 * (pin % 16)) as u32;
        let code = resistor.bcm2711_code();
        if get_field32(old_state, offset, 2) == code {
            None
        } else {
            Some(set_field32(old_state, offset, 2, code))
        }
    }

    /// Which BCM2711 pull control register holds `pin`.
    pub fn pull_control_register(host: &BcmHost, pin: u8) -> (r: usize)
        requires
            host.wf(),
            pin < 54,
        ensures
            r == peripheral_register(*host, GPIO_BASE, GPIO_PUP_PDN_CNTRL_REG0) + 4 * (pin / 16),
    {
        host.peripheral_address + GPIO_BASE + GPIO_PUP_PDN_CNTRL_REG0 + 4 * (pin / 16) as usize
    }

    /// The BCM2711 pull control registers (four banks of 16 pins) after setting every
    /// pin of `pins` to `resistor`, and for each bank whether it changed and must be
    /// written back.
    pub fn set_pull_resistors_in_banks(pins: PinSet, resistor: Resistor, state: &Vec<u32>) -> (r: (Vec<u32>, Vec<bool>))
        requires
            state@.len() == 4,
        ensures
            r.0@.len() == 4,
            r.1@.len() == 4,
            forall|b: int, k: int| 0 <= b < 4 && 0 <= k < 16 ==> #[trigger] pull_field(r.0@[b], k) ==
                if pins.has(16 * b + k) { resistor.spec_bcm2711_code() } else { pull_field(state@[b], k) },
            forall|b: int| 0 <= b < 4 ==> (r.1@[b] <==> bank_changes(state@[b], pins, b, resistor.spec_bcm2711_code())),
            forall|b: int| 0 <= b < 4 ==> (!r.1@[b] ==> r.0@[b] == state@[b]),
    {
        let code = resistor.bcm2711_code();
        let mut new_state: Vec<u32> = state.clone();
        let mut updated: Vec<bool> = vec![false, false, false, false];
        let mut it = PinSelectIterator::new(pins);
        let ghost c = resistor.spec_bcm2711_code();
        proof {
            lemma_two_bit_code32(c);
        }
        loop
            invariant
                it.select == pins,
                it.position <= 54,
                new_state@.len() == 4,
                updated@.len() == 4,
                code == c,
                c < 4,
                c & crate::bits::low_mask32(2) == c,
                forall|b: int, k: int| 0 <= b < 4 && 0 <= k < 16 ==> #[trigger] pull_field(new_state@[b], k) ==
                    if pins.has(16 * b + k) && 16 * b + k < it.position { c } else { pull_field(state@[b], k) },
                forall|b: int| 0 <= b < 4 ==> (#[trigger] updated@[b] <==> exists|k: int| 0 <= k < 16 && 16 * b + k < it.position
                    && pins.has(16 * b + k) && pull_field(state@[b], k) != c),
                forall|b: int| 0 <= b < 4 ==> (!(#[trigger] updated@[b]) ==> new_state@[b] == state@[b]),
            ensures
                new_state@.len() == 4,
                updated@.len() == 4,
                forall|b: int, k: int| 0 <= b < 4 && 0 <= k < 16 ==> #[trigger] pull_field(new_state@[b], k) ==
                    if pins.has(16 * b + k) { c } else { pull_field(state@[b], k) },
                forall|b: int| 0 <= b < 4 ==> (updated@[b] <==> bank_changes(state@[b], pins, b, c)),
                forall|b: int| 0 <= b < 4 ==> (!updated@[b] ==> new_state@[b] == state@[b]),
            decreases 55 - it.position,
        {
            let ghost before = it.position as int;
            let ghost ns0 = new_state@;
            let ghost up0 = updated@;
            let next = it.next();
            match next {
                None => {
                    assert forall|b: int, k: int| 0 <= b < 4 && 0 <= k < 16 && #[trigger] pins.has(16 * b + k)
                        implies 16 * b + k < it.position by {
                        if 16 * b + k >= before {
                            assert(!pins.has(16 * b + k));
                        }
                    }
                    assert forall|b: int| 0 <= b < 4 implies (updated@[b] <==> bank_changes(state@[b], pins, b, c)) by {
                        if bank_changes(state@[b], pins, b, c) {
                            let k = choose|k: int| 0 <= k < 16 && pins.has(16 * b + k) && pull_field(state@[b], k) != c;
                            assert(16 * b + k < it.position);
                        }
                    }
                    break;
                },
                Some(pin) => {
                    let b: usize = (pin / 16) as usize;
                    let offset: u32 = (2 * (pin % 16)) as u32;
                    let ghost kp = (pin % 16) as int;
                    assert(16 * b + kp == pin);
                    assert(pull_field(ns0[b as int], kp) == pull_field(state@[b as int], kp));
                    let old_field = get_field32(new_state[b], offset, 2);
                    if old_field != code {
                        let v = set_field32(new_state[b], offset, 2, code);
                        proof {
                            assert forall|k: int| 0 <= k < 16 implies #[trigger] pull_field(v, k) ==
                                if k == kp { c } else { pull_field(ns0[b as int], k) } by {
                                if k == kp {
                                    lemma_field32_read_write(ns0[b as int], offset, 2, code);
                                } else {
                                    lemma_field32_disjoint(ns0[b as int], offset, 2, code, (2 * k) as u32, 2);
                                }
                            }
                        }
                        new_state.set(b, v);
                        updated.set(b, true);
                    }
                    proof {
                        assert forall|bb: int, k: int| 0 <= bb < 4 && 0 <= k < 16 implies
                            (#[trigger] pins.has(16 * bb + k) && 16 * bb + k < it.position) ==
                            ((pins.has(16 * bb + k) && 16 * bb + k < before) || 16 * bb + k == pin) by {
                            if 16 * bb + k == pin {
                            } else if before <= 16 * bb + k < pin {
                                assert(!pins.has(16 * bb + k));
                            }
                        }
                        assert forall|bb: int| 0 <= bb < 4 implies (#[trigger] updated@[bb] <==> exists|k: int| 0 <= k < 16
                            && 16 * bb + k < it.position && pins.has(16 * bb + k) && pull_field(state@[bb], k) != c) by {
                            if bb == b as int && old_field != code {
                                assert(0 <= kp < 16 && 16 * bb + kp < it.position && pins.has(16 * bb + kp)
                                    && pull_field(state@[bb], kp) != c);
                            } else {
                                if exists|k: int| 0 <= k < 16 && 16 * bb + k < it.position && pins.has(16 * bb + k)
                                    && pull_field(state@[bb], k) != c {
                                    let k = choose|k: int| 0 <= k < 16 && 16 * bb + k < it.position && pins.has(16 * bb + k)
                                        && pull_field(state@[bb], k) != c;
                                    if 16 * bb + k == pin {
                                        assert(bb == b as int);
                                        assert(k == kp);
                                    } else {
                                        assert(16 * bb + k < before);
                                    }
                                }
                            }
                        }
                    }
                },
            }
        }
        (new_state, updated)
    }
}


/// Setting the same pins to the same resistor a second time changes no bank: once the
/// banks hold the result of a first setting, no bank is written again.
pub proof fn lemma_pull_resistors_idempotent(pins: PinSet, code: u32, first: Seq<u32>, second: Seq<u32>)
    requires
        first.len() == 4,
        second.len() == 4,
        forall|b: int, k: int| 0 <= b < 4 && 0 <= k < 16 ==> #[trigger] pull_field(second[b], k) ==
            if pins.has(16 * b + k) { code } else { pull_field(first[b], k) },
    ensures
        forall|b: int| 0 <= b < 4 ==> !#[trigger] bank_changes(second[b], pins, b, code),
{
    assert forall|b: int| 0 <= b < 4 implies !#[trigger] bank_changes(second[b], pins, b, code) by {
        if bank_changes(second[b], pins, b, code) {
            let k = choose|k: int| 0 <= k < 16 && pins.has(16 * b + k) && pull_field(second[b], k) != code;
            assert(pull_field(second[b], k) == code);
        }
    }
}

} // verus!
