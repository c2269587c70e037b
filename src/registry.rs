//! All GPIO ports together: pins are named by port and number, and a batch
//! of alternate-function pins may span several ports.

use arrayvec::ArrayVec;
use crate::config::{AlternateFunction, OutputSpeed, OutputType, Pin, Port, Resistor};
use crate::overlay::{alternate_config, input_config, output_config, GpioRegisters};
use crate::port::{
    claims, conflict_at, lemma_pin_number_injective, marked, no_conflict, Error, GpioPort,
    InputPin, OutputPin,
};
use vstd::prelude::*;
use vstd::set_lib::{lemma_int_range, lemma_len_subset, set_int_range};

verus! {

#[verifier::external_type_specification]
#[verifier::external_body]
#[verifier::reject_recursive_types(T)]
pub struct ExArrayVec<T, const CAP: usize>(ArrayVec<T, CAP>);

/// The pins that a fixed-capacity list holds, in order.
pub uninterp spec fn pin_list(list: ArrayVec<Pin, 16>) -> Seq<Pin>;

/// Relies on `arrayvec::ArrayVec::new`: an empty list.
#[verifier::external_body]
fn pin_list_new() -> (r: ArrayVec<Pin, 16>)
    ensures
        pin_list(r) == Seq::<Pin>::empty(),
{
    ArrayVec::new()
}

/// Relies on `arrayvec::ArrayVec::try_push`: below the capacity of 16 the pin
/// is appended and `Ok` returned; at it the list is unchanged and an error
/// returned.
#[verifier::external_body]
fn pin_list_push(list: &mut ArrayVec<Pin, 16>, pin: Pin) -> (r: bool)
    ensures
        r == (pin_list(*old(list)).len() < 16),
        r ==> pin_list(*final(list)) == pin_list(*old(list)).push(pin),
        !r ==> pin_list(*final(list)) == pin_list(*old(list)),
{
    list.try_push(pin).is_ok()
}

/// Relies on `arrayvec::ArrayVec::as_slice`: the held pins, in order.
#[verifier::external_body]
fn pin_list_slice(list: &ArrayVec<Pin, 16>) -> (r: &[Pin])
    ensures
        r@ == pin_list(*list),
{
    list.as_slice()
}

/// The pins of `pins` that belong to `port`, in order.
pub open spec fn pins_on(pins: Seq<(Port, Pin)>, port: Port) -> Seq<Pin>
    decreases pins.len(),
{
    if pins.len() == 0 {
        Seq::empty()
    } else {
        let rest = pins_on(pins.drop_last(), port);
        if pins.last().0 == port {
            rest.push(pins.last().1)
        } else {
            rest
        }
    }
}

/// Whether the `i`-th entry of `pins` cannot be taken: its pin is in use on
/// its port, or an earlier entry names the same port and pin.
pub open spec fn pair_conflict_at(gpio: Gpio, pins: Seq<(Port, Pin)>, i: int) -> bool {
    gpio.port_spec(pins[i].0).in_use()[pins[i].1.number() as int] || exists|j: int|
        0 <= j < i && pins[j] == pins[i]
}

/// Whether all of `pins` can be taken together.
pub open spec fn no_pair_conflict(gpio: Gpio, pins: Seq<(Port, Pin)>) -> bool {
    forall|i: int| 0 <= i < pins.len() ==> !pair_conflict_at(gpio, pins, i)
}

/// Whether `pin` is the pin of the first entry of `pins` that cannot be taken.
pub open spec fn first_pair_conflict_is(gpio: Gpio, pins: Seq<(Port, Pin)>, pin: Pin) -> bool {
    exists|i: int|
        0 <= i < pins.len() && pins[i].1 == pin && pair_conflict_at(gpio, pins, i) && forall|k: int|
            0 <= k < i ==> !pair_conflict_at(gpio, pins, k)
}

/// The ownership and register part of routing each pin of `pins` to an
/// alternate function on one port.
pub open spec fn configured_batch(
    before: GpioPort,
    after: GpioPort,
    pins: Seq<Pin>,
    alternate_fn: AlternateFunction,
    typ: OutputType,
    speed: OutputSpeed,
    resistor: Resistor,
) -> bool {
    &&& after.in_use() == marked(before.in_use(), pins)
    &&& after.regs() == alternate_config(before.regs(), pins, alternate_fn, typ, speed, resistor)
    &&& after.port_id() == before.port_id()
}

/// Every pin of `pins_on(pins, port)` comes from an entry of `pins` for `port`.
proof fn lemma_pins_on_from(pins: Seq<(Port, Pin)>, port: Port)
    ensures
        forall|x: int|
            0 <= x < pins_on(pins, port).len() ==> exists|j: int|
                0 <= j < pins.len() && pins[j] == (port, #[trigger] pins_on(pins, port)[x]),
    decreases pins.len(),
{
    if pins.len() > 0 {
        let rest = pins.drop_last();
        lemma_pins_on_from(rest, port);
        assert forall|x: int| 0 <= x < pins_on(pins, port).len() implies exists|j: int|
            0 <= j < pins.len() && pins[j] == (port, #[trigger] pins_on(pins, port)[x]) by {
            if x < pins_on(rest, port).len() {
                let j = choose|j: int|
                    0 <= j < rest.len() && rest[j] == (port, #[trigger] pins_on(rest, port)[x]);
                assert(pins[j] == rest[j]);
            } else {
                assert(pins[pins.len() - 1] == (port, pins_on(pins, port)[x]));
            }
        }
    }
}

/// The pins of one port in a request that can be taken as a whole can be
/// taken by that port.
proof fn lemma_pins_on_no_conflict(in_use: Seq<bool>, pins: Seq<(Port, Pin)>, port: Port)
    requires
        forall|i: int|
            0 <= i < pins.len() && pins[i].0 == port ==> !in_use[
                #[trigger] pins[i].1.number() as int
            ],
        forall|i: int, j: int| 0 <= j < i < pins.len() ==> pins[j] != pins[i],
    ensures
        no_conflict(in_use, pins_on(pins, port)),
    decreases pins.len(),
{
    if pins.len() > 0 {
        let rest = pins.drop_last();
        assert forall|i: int|
            0 <= i < rest.len() && rest[i].0 == port implies !in_use[
                #[trigger] rest[i].1.number() as int
            ] by {
            assert(rest[i] == pins[i]);
        }
        lemma_pins_on_no_conflict(in_use, rest, port);
        let last = pins.last();
        if last.0 == port {
            let before = pins_on(rest, port);
            let all = pins_on(pins, port);
            lemma_pins_on_from(rest, port);
            assert forall|i: int| 0 <= i < all.len() implies !conflict_at(in_use, all, i) by {
                if i < before.len() {
                    assert(all[i] == before[i]);
                    assert(!conflict_at(in_use, before, i));
                    if exists|j: int| 0 <= j < i && all[j] == all[i] {
                        let j = choose|j: int| 0 <= j < i && all[j] == all[i];
                        assert(before[j] == all[j]);
                    }
                } else {
                    assert(all[i] == last.1);
                    assert(pins[pins.len() - 1] == last);
                    if exists|j: int| 0 <= j < i && all[j] == all[i] {
                        let j = choose|j: int| 0 <= j < i && all[j] == all[i];
                        assert(before[j] == all[j]);
                        let k = choose|k: int|
                            0 <= k < rest.len() && rest[k] == (port, #[trigger] before[j]);
                        assert(pins[k] == rest[k]);
                    }
                }
            }
        }
    }
}

/// Sixteen pins exist, so a list of distinct pins holds at most sixteen.
proof fn lemma_distinct_pins_at_most_sixteen(pins: Seq<Pin>)
    requires
        forall|i: int, j: int| 0 <= j < i < pins.len() ==> pins[j] != pins[i],
    ensures
        pins.len() <= 16,
{
    let numbers = pins.map_values(|p: Pin| p.number() as int);
    assert forall|i: int, j: int|
        0 <= i < numbers.len() && 0 <= j < numbers.len() && i != j implies numbers[i]
            != numbers[j] by {
        lemma_pin_number_injective(pins[i], pins[j]);
        if i < j {
            assert(pins[i] != pins[j]);
        } else {
            assert(pins[j] != pins[i]);
        }
    }
    assert(numbers.no_duplicates());
    numbers.unique_seq_to_set();
    lemma_int_range(0, 16);
    assert forall|n: int| numbers.to_set().contains(n) implies set_int_range(0, 16).contains(n) by {
        let i = choose|i: int| 0 <= i < numbers.len() && numbers[i] == n;
    }
    lemma_len_subset(numbers.to_set(), set_int_range(0, 16));
}

/// The entries of a request that can be taken as a whole that belong to one
/// port can be taken by that port, and there are at most sixteen of them.
proof fn lemma_port_share(gpio: Gpio, pins: Seq<(Port, Pin)>, port: Port)
    requires
        no_pair_conflict(gpio, pins),
    ensures
        no_conflict(gpio.port_spec(port).in_use(), pins_on(pins, port)),
        pins_on(pins, port).len() <= 16,
{
    gpio.port_spec(port).lemma_sixteen_flags();
    let in_use = gpio.port_spec(port).in_use();
    assert forall|a: int| 0 <= a < pins.len() && pins[a].0 == port implies !in_use[
        #[trigger] pins[a].1.number() as int
    ] by {
        assert(!pair_conflict_at(gpio, pins, a));
    }
    assert forall|a: int, b: int| 0 <= b < a < pins.len() implies pins[b] != pins[a] by {
        assert(!pair_conflict_at(gpio, pins, a));
    }
    lemma_pins_on_no_conflict(in_use, pins, port);
    let mine = pins_on(pins, port);
    assert forall|a: int, b: int| 0 <= b < a < mine.len() implies mine[b] != mine[a] by {
        assert(!conflict_at(in_use, mine, a));
    }
    lemma_distinct_pins_at_most_sixteen(mine);
}

/// Every prefix of a request that can be taken as a whole can be taken as a
/// whole.
proof fn lemma_prefix_no_pair_conflict(gpio: Gpio, pins: Seq<(Port, Pin)>, n: int)
    requires
        no_pair_conflict(gpio, pins),
        0 <= n <= pins.len(),
    ensures
        no_pair_conflict(gpio, pins.take(n)),
{
    let prefix = pins.take(n);
    assert forall|a: int| 0 <= a < n implies !pair_conflict_at(gpio, prefix, a) by {
        assert(!pair_conflict_at(gpio, pins, a));
        if exists|j: int| 0 <= j < a && prefix[j] == prefix[a] {
            let j = choose|j: int| 0 <= j < a && prefix[j] == prefix[a];
            assert(pins[j] == pins[a]);
        }
    }
}

/// The ports A to K.
pub struct Gpio {
    port_a: GpioPort,
    port_b: GpioPort,
    port_c: GpioPort,
    port_d: GpioPort,
    port_e: GpioPort,
    port_f: GpioPort,
    port_g: GpioPort,
    port_h: GpioPort,
    port_i: GpioPort,
    port_j: GpioPort,
    port_k: GpioPort,
}

impl Gpio {
    /// The controller of `port`.
    pub closed spec fn port_spec(self, port: Port) -> GpioPort {
        match port {
            Port::PortA => self.port_a,
            Port::PortB => self.port_b,
            Port::PortC => self.port_c,
            Port::PortD => self.port_d,
            Port::PortE => self.port_e,
            Port::PortF => self.port_f,
            Port::PortG => self.port_g,
            Port::PortH => self.port_h,
            Port::PortI => self.port_i,
            Port::PortJ => self.port_j,
            Port::PortK => self.port_k,
        }
    }

    /// Controllers over the given register blocks, one per port, with every
    /// pin free.
    pub fn new(
        gpio_a: GpioRegisters,
        gpio_b: GpioRegisters,
        gpio_c: GpioRegisters,
        gpio_d: GpioRegisters,
        gpio_e: GpioRegisters,
        gpio_f: GpioRegisters,
        gpio_g: GpioRegisters,
        gpio_h: GpioRegisters,
        gpio_i: GpioRegisters,
        gpio_j: GpioRegisters,
        gpio_k: GpioRegisters,
    ) -> (r: Gpio)
        ensures
            forall|p: Port| #[trigger] r.port_spec(p).port_id() == p,
            forall|p: Port| #[trigger] r.port_spec(p).in_use() == Seq::new(16, |n: int| false),
            r.port_spec(Port::PortA).regs() == gpio_a@,
            r.port_spec(Port::PortB).regs() == gpio_b@,
            r.port_spec(Port::PortC).regs() == gpio_c@,
            r.port_spec(Port::PortD).regs() == gpio_d@,
            r.port_spec(Port::PortE).regs() == gpio_e@,
            r.port_spec(Port::PortF).regs() == gpio_f@,
            r.port_spec(Port::PortG).regs() == gpio_g@,
            r.port_spec(Port::PortH).regs() == gpio_h@,
            r.port_spec(Port::PortI).regs() == gpio_i@,
            r.port_spec(Port::PortJ).regs() == gpio_j@,
            r.port_spec(Port::PortK).regs() == gpio_k@,
    {
        Gpio {
            port_a: GpioPort::new(Port::PortA, gpio_a),
            port_b: GpioPort::new(Port::PortB, gpio_b),
            port_c: GpioPort::new(Port::PortC, gpio_c),
            port_d: GpioPort::new(Port::PortD, gpio_d),
            port_e: GpioPort::new(Port::PortE, gpio_e),
            port_f: GpioPort::new(Port::PortF, gpio_f),
            port_g: GpioPort::new(Port::PortG, gpio_g),
            port_h: GpioPort::new(Port::PortH, gpio_h),
            port_i: GpioPort::new(Port::PortI, gpio_i),
            port_j: GpioPort::new(Port::PortJ, gpio_j),
            port_k: GpioPort::new(Port::PortK, gpio_k),
        }
    }

    /// The controller of `port`.
    pub fn port(&mut self, port: Port) -> (r: &mut GpioPort)
        ensures
            *r == old(self).port_spec(port),
            final(self).port_spec(port) == *final(r),
            forall|q: Port|
                q != port ==> #[trigger] final(self).port_spec(q) == old(self).port_spec(q),
    {
        match port {
            Port::PortA => &mut self.port_a,
            Port::PortB => &mut self.port_b,
            Port::PortC => &mut self.port_c,
            Port::PortD => &mut self.port_d,
            Port::PortE => &mut self.port_e,
            Port::PortF => &mut self.port_f,
            Port::PortG => &mut self.port_g,
            Port::PortH => &mut self.port_h,
            Port::PortI => &mut self.port_i,
            Port::PortJ => &mut self.port_j,
            Port::PortK => &mut self.port_k,
        }
    }

    /// The controller of `port`, to read from.
    pub fn port_ref(&self, port: Port) -> (r: &GpioPort)
        ensures
            *r == self.port_spec(port),
    {
        match port {
            Port::PortA => &self.port_a,
            Port::PortB => &self.port_b,
            Port::PortC => &self.port_c,
            Port::PortD => &self.port_d,
            Port::PortE => &self.port_e,
            Port::PortF => &self.port_f,
            Port::PortG => &self.port_g,
            Port::PortH => &self.port_h,
            Port::PortI => &self.port_i,
            Port::PortJ => &self.port_j,
            Port::PortK => &self.port_k,
        }
    }

    /// Makes pin `pin.1` of port `pin.0` an input, unless it is in use.
    pub fn to_input(&mut self, pin: (Port, Pin), resistor: Resistor) -> (r: Result<InputPin, Error>)
        ensures
            claims(old(self).port_spec(pin.0), final(self).port_spec(pin.0), pin.1, r is Err),
            r is Err ==> r == Err::<InputPin, Error>(Error::PinAlreadyInUse(pin.1)),
            r matches Ok(handle) ==> handle.pin_id() == pin.1 && handle.port_id() == old(
                self,
            ).port_spec(pin.0).port_id() && final(self).port_spec(pin.0).regs() == input_config(
                old(self).port_spec(pin.0).regs(),
                pin.1,
                resistor,
            ),
            forall|q: Port|
                q != pin.0 ==> #[trigger] final(self).port_spec(q) == old(self).port_spec(q),
    {
        self.port(pin.0).to_input(pin.1, resistor)
    }

    /// Makes pin `pin.1` of port `pin.0` an output, unless it is in use.
    pub fn to_output(
        &mut self,
        pin: (Port, Pin),
        out_type: OutputType,
        out_speed: OutputSpeed,
        resistor: Resistor,
    ) -> (r: Result<OutputPin, Error>)
        ensures
            claims(old(self).port_spec(pin.0), final(self).port_spec(pin.0), pin.1, r is Err),
            r is Err ==> r == Err::<OutputPin, Error>(Error::PinAlreadyInUse(pin.1)),
            r matches Ok(handle) ==> handle.pin_id() == pin.1 && handle.port_id() == old(
                self,
            ).port_spec(pin.0).port_id() && final(self).port_spec(pin.0).regs() == output_config(
                old(self).port_spec(pin.0).regs(),
                pin.1,
                out_type,
                out_speed,
                resistor,
            ),
            forall|q: Port|
                q != pin.0 ==> #[trigger] final(self).port_spec(q) == old(self).port_spec(q),
    {
        self.port(pin.0).to_output(pin.1, out_type, out_speed, resistor)
    }

    /// Routes pin `pin.1` of port `pin.0` to alternate function
    /// `alternate_fn`, unless it is in use.
    pub fn to_alternate_function(
        &mut self,
        pin: (Port, Pin),
        alternate_fn: AlternateFunction,
        typ: OutputType,
        speed: OutputSpeed,
        resistor: Resistor,
    ) -> (r: Result<(), Error>)
        ensures
            claims(old(self).port_spec(pin.0), final(self).port_spec(pin.0), pin.1, r is Err),
            r is Err ==> r == Err::<(), Error>(Error::PinAlreadyInUse(pin.1)),
            r is Ok ==> final(self).port_spec(pin.0).regs() == alternate_config(
                old(self).port_spec(pin.0).regs(),
                seq![pin.1],
                alternate_fn,
                typ,
                speed,
                resistor,
            ),
            forall|q: Port|
                q != pin.0 ==> #[trigger] final(self).port_spec(q) == old(self).port_spec(q),
    {
        self.port(pin.0).to_alternate_function(pin.1, alternate_fn, typ, speed, resistor)
    }

    /// Routes all of `pins`, on any ports, to alternate function
    /// `alternate_fn`, or none of them: every pin is checked on every port
    /// before any register is written. If a pin is in use, or named twice,
    /// nothing changes and the pin of the first such entry is reported.
    pub fn to_alternate_function_all(
        &mut self,
        pins: &[(Port, Pin)],
        alternate_fn: AlternateFunction,
        typ: OutputType,
        speed: OutputSpeed,
        resistor: Resistor,
    ) -> (r: Result<(), Error>)
        ensures
            r is Ok <==> no_pair_conflict(*old(self), pins@),
            r matches Err(Error::PinAlreadyInUse(p)) ==> first_pair_conflict_is(
                *old(self),
                pins@,
                p,
            ) && *final(self) == *old(self),
            r is Ok ==> forall|q: Port|
                configured_batch(
                    old(self).port_spec(q),
                    #[trigger] final(self).port_spec(q),
                    pins_on(pins@, q),
                    alternate_fn,
                    typ,
                    speed,
                    resistor,
                ),
    {
        let mut i: usize = 0;
        while i < pins.len()
            invariant
                0 <= i <= pins.len(),
                *self == *old(self),
                forall|k: int| 0 <= k < i ==> !pair_conflict_at(*self, pins@, k),
            decreases pins.len() - i,
        {
            let (port, pin) = pins[i];
            if self.port_ref(port).is_in_use(pin) {
                proof {
                    assert(pair_conflict_at(*self, pins@, i as int));
                }
                return Err(Error::PinAlreadyInUse(pin));
            }
            let mut j: usize = 0;
            while j < i
                invariant
                    0 <= j <= i < pins.len(),
                    *self == *old(self),
                    forall|k: int| 0 <= k < i ==> !pair_conflict_at(*self, pins@, k),
                    pins@[i as int] == (port, pin),
                    forall|k: int| 0 <= k < j ==> pins@[k] != pins@[i as int],
                decreases i - j,
            {
                let (other_port, other_pin) = pins[j];
                if other_port == port && other_pin == pin {
                    proof {
                        assert(pins@[j as int] == pins@[i as int]);
                        assert(pair_conflict_at(*self, pins@, i as int));
                    }
                    return Err(Error::PinAlreadyInUse(pin));
                }
                j += 1;
            }
            i += 1;
        }
        let ports = [
            Port::PortA,
            Port::PortB,
            Port::PortC,
            Port::PortD,
            Port::PortE,
            Port::PortF,
            Port::PortG,
            Port::PortH,
            Port::PortI,
            Port::PortJ,
            Port::PortK,
        ];
        let mut k: usize = 0;
        while k < 11
            invariant
                0 <= k <= 11,
                ports@ == seq![
                    Port::PortA,
                    Port::PortB,
                    Port::PortC,
                    Port::PortD,
                    Port::PortE,
                    Port::PortF,
                    Port::PortG,
                    Port::PortH,
                    Port::PortI,
                    Port::PortJ,
                    Port::PortK,
                ],
                no_pair_conflict(*old(self), pins@),
                forall|q: Port|
                    q.index() < k ==> configured_batch(
                        old(self).port_spec(q),
                        #[trigger] self.port_spec(q),
                        pins_on(pins@, q),
                        alternate_fn,
                        typ,
                        speed,
                        resistor,
                    ),
                forall|q: Port|
                    q.index() >= k ==> #[trigger] self.port_spec(q) == old(self).port_spec(q),
            decreases 11 - k,
        {
            let port = ports[k];
            let mut list = pin_list_new();
            let mut i: usize = 0;
            while i < pins.len()
                invariant
                    0 <= i <= pins.len(),
                    no_pair_conflict(*old(self), pins@),
                    pin_list(list) == pins_on(pins@.take(i as int), port),
                decreases pins.len() - i,
            {
                let (p, pin) = pins[i];
                proof {
                    let prefix = pins@.take(i as int + 1);
                    assert(prefix.drop_last() == pins@.take(i as int));
                    assert(prefix.last() == pins@[i as int]);
                }
                if p == port {
                    proof {
                        lemma_prefix_no_pair_conflict(*old(self), pins@, i as int + 1);
                        lemma_port_share(*old(self), pins@.take(i as int + 1), port);
                    }
                    pin_list_push(&mut list, pin);
                }
                i += 1;
            }
            proof {
                assert(pins@.take(pins.len() as int) == pins@);
                lemma_port_share(*old(self), pins@, port);
            }
            let r = self.port(port).to_alternate_function_all(
                pin_list_slice(&list),
                alternate_fn,
                typ,
                speed,
                resistor,
            );
            if let Err(e) = r {
                return Err(e);
            }
            k += 1;
        }
        Ok(())
    }
}

} // verus!
