//! Named values a device shows on its debug interface.

use crate::number::Number;
use crate::time::Duration;
use vstd::prelude::*;

verus! {

/// What a signal holds.
#[derive(Clone, Debug, PartialEq, Eq)]
pub enum SignalValue {
    /// Words.
    Text(String),
    /// A physical value.
    Number(Number),
    /// A span of time or an instant.
    Seconds(Duration),
    /// A truth value.
    Bool(bool),
    /// Nothing to report at the moment.
    Absent,
}

/// The content of a [`SignalValue`].
pub enum SignalFact {
    /// Words.
    Text(Seq<char>),
    /// A physical value.
    Number(Number),
    /// A span of time or an instant.
    Seconds(Duration),
    /// A truth value.
    Bool(bool),
    /// Nothing to report at the moment.
    Absent,
}

/// The content of a [`Signal`].
pub struct SignalView {
    /// The full name.
    pub name: Seq<char>,
    /// The value.
    pub value: SignalFact,
    /// The unit, where the value has one.
    pub unit: Option<Seq<char>>,
}

impl View for SignalValue {
    type V = SignalFact;

    open spec fn view(&self) -> SignalFact {
        match *self {
            SignalValue::Text(text) => SignalFact::Text(text@),
            SignalValue::Number(number) => SignalFact::Number(number),
            SignalValue::Seconds(seconds) => SignalFact::Seconds(seconds),
            SignalValue::Bool(value) => SignalFact::Bool(value),
            SignalValue::Absent => SignalFact::Absent,
        }
    }
}

/// A physical value, where there is one.
pub open spec fn number_fact(value: Option<Number>) -> SignalFact {
    match value {
        Some(number) => SignalFact::Number(number),
        None => SignalFact::Absent,
    }
}

/// A span of time, where there is one.
pub open spec fn seconds_fact(value: Option<Duration>) -> SignalFact {
    match value {
        Some(seconds) => SignalFact::Seconds(seconds),
        None => SignalFact::Absent,
    }
}

impl SignalValue {
    /// Words.
    pub fn text(text: &str) -> (r: SignalValue)
        ensures
            r@ == SignalFact::Text(text@),
    {
        SignalValue::Text(String::from_str(text))
    }

    /// A physical value, where there is one.
    pub fn number(value: Option<Number>) -> (r: SignalValue)
        ensures
            r@ == number_fact(value),
    {
        match value {
            Some(number) => SignalValue::Number(number),
            None => SignalValue::Absent,
        }
    }

    /// A span of time, where there is one.
    pub fn seconds(value: Option<Duration>) -> (r: SignalValue)
        ensures
            r@ == seconds_fact(value),
    {
        match value {
            Some(seconds) => SignalValue::Seconds(seconds),
            None => SignalValue::Absent,
        }
    }
}

/// One named value.
#[derive(Clone, Debug, PartialEq, Eq)]
pub struct Signal {
    /// The full name.
    pub name: String,
    /// The value.
    pub value: SignalValue,
    /// The unit, where the value has one.
    pub unit: Option<&'static str>,
}

impl View for Signal {
    type V = SignalView;

    open spec fn view(&self) -> SignalView {
        SignalView {
            name: self.name@,
            value: self.value@,
            unit: match self.unit {
                Some(unit) => Some(unit@),
                None => None,
            },
        }
    }
}

/// The name of a data point under a prefix: `prefix:point`.
pub open spec fn qualified(prefix: Seq<char>, point: Seq<char>) -> Seq<char> {
    prefix + ":"@ + point
}

impl Signal {
    /// A signal `prefix:point` without a unit.
    pub fn named(prefix: &str, point: &str, value: SignalValue) -> (r: Signal)
        ensures
            r@ == (SignalView {
                name: qualified(prefix@, point@),
                value: value@,
                unit: None,
            }),
    {
        let mut name = String::from_str(prefix);
        name.append(":");
        name.append(point);
        Signal { name, value, unit: None }
    }

    /// The same signal, in a unit.
    #[must_use]
    pub fn in_unit(self, unit: &'static str) -> (r: Signal)
        ensures
            r@ == (SignalView { unit: Some(unit@), ..self@ }),
    {
        Signal { name: self.name, value: self.value, unit: Some(unit) }
    }
}

/// Signals in the order in which they are shown.
#[derive(Clone, Debug, PartialEq, Eq)]
pub struct SignalSet {
    /// The signals.
    pub signals: Vec<Signal>,
}

impl View for SignalSet {
    type V = Seq<SignalView>;

    open spec fn view(&self) -> Seq<SignalView> {
        self.signals@.map_values(|signal: Signal| signal@)
    }
}

impl SignalSet {
    /// No signals.
    pub fn new() -> (r: SignalSet)
        ensures
            r@ == Seq::<SignalView>::empty(),
    {
        let r = SignalSet { signals: Vec::new() };
        assert(r@ =~= Seq::<SignalView>::empty());
        r
    }

    /// Adds one signal at the end.
    #[must_use]
    pub fn with(self, signal: Signal) -> (r: SignalSet)
        ensures
            r@ == self@.push(signal@),
    {
        let mut signals = self.signals;
        signals.push(signal);
        let r = SignalSet { signals };
        assert(r@ =~= self@.push(signal@));
        r
    }

    /// How many signals there are.
    pub fn len(&self) -> (r: usize)
        ensures
            r == self@.len(),
    {
        self.signals.len()
    }
}

} // verus!
