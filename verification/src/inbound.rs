//! Validation of writes that arrive from outside.
//!
//! A write names a point and carries a payload as text. Where the model
//! gives the point a table of symbols, the payload has to name one of them
//! and the symbol's number is written. Otherwise the payload has to satisfy
//! the input that the point declares. Whatever fails is dropped and never
//! reaches the device.

use vstd::prelude::*;
use vstd::string::*;
use crate::config_structs::{InputType, NumberInput};
use crate::text::{i64_of, parse_i64, parse_u32, signed_decimal, str_eq, u32_of};

verus! {

/// One named value of an enumerated point.
#[derive(Clone, Debug)]
pub struct Symbol {
    /// The name by which the value is chosen.
    pub id: String,
    /// The number that stands for it on the device, as text.
    pub symbol: String,
}

/// Why a write is dropped.
#[derive(Clone, Copy, Debug, PartialEq, Eq, Structural)]
pub enum DropReason {
    /// The payload names none of the point's symbols.
    UnknownSymbol,
    /// The symbol that the payload names stands for no whole number.
    SymbolNotNumeric,
    /// The point declares no input.
    NoInput,
    /// The payload, or a payload that the input declares, is no number.
    NotNumeric,
    /// The number lies outside the range that the input declares.
    OutOfRange,
    /// The payload is none of those that the input allows.
    NotAllowed,
    /// The write names a model that the device does not carry.
    UnknownModel,
    /// The write names a point that the worker does not watch.
    UnknownPoint,
}

/// What becomes of a write.
#[derive(Clone, Copy, Debug, PartialEq, Eq, Structural)]
pub enum WriteDecision {
    /// The number to write to the point.
    Write(i64),
    Drop(DropReason),
}

/// The names of a table of symbols.
pub open spec fn symbol_ids(symbols: Seq<Symbol>) -> Seq<Seq<char>> {
    symbols.map_values(|s: Symbol| s.id@)
}

/// What becomes of a write to a point with a table of symbols: the number of
/// the first symbol that the payload names.
pub open spec fn symbol_decision(symbols: Seq<Symbol>, payload: Seq<char>) -> WriteDecision {
    match symbol_ids(symbols).index_of_first(payload) {
        Some(i) => match i64_of(symbols[i].symbol@) {
            Some(v) => WriteDecision::Write(v),
            None => WriteDecision::Drop(DropReason::SymbolNotNumeric),
        },
        None => WriteDecision::Drop(DropReason::UnknownSymbol),
    }
}

/// What becomes of a write to a point without a table of symbols.
///
/// A selection cannot be resolved without symbols. A switch takes one of
/// its two payloads, a button its single payload, each read as a number. A
/// number has to lie within its range, both ends included.
pub open spec fn input_decision(input: Option<InputType>, payload: Seq<char>) -> WriteDecision {
    match input {
        None => WriteDecision::Drop(DropReason::NoInput),
        Some(InputType::Select(_)) => WriteDecision::Drop(DropReason::UnknownSymbol),
        Some(InputType::Switch(sw)) => match (u32_of(sw.on@), u32_of(sw.off@), u32_of(payload)) {
            (Some(on), Some(off), Some(p)) => if p == on || p == off {
                WriteDecision::Write(p as i64)
            } else {
                WriteDecision::Drop(DropReason::NotAllowed)
            },
            _ => WriteDecision::Drop(DropReason::NotNumeric),
        },
        Some(InputType::Button(press)) => match (u32_of(press@), u32_of(payload)) {
            (Some(b), Some(p)) => if p == b {
                WriteDecision::Write(p as i64)
            } else {
                WriteDecision::Drop(DropReason::NotAllowed)
            },
            _ => WriteDecision::Drop(DropReason::NotNumeric),
        },
        Some(InputType::Number(n)) => match i64_of(payload) {
            Some(v) => if n.min <= v <= n.max {
                WriteDecision::Write(v)
            } else {
                WriteDecision::Drop(DropReason::OutOfRange)
            },
            None => WriteDecision::Drop(DropReason::NotNumeric),
        },
    }
}

/// What becomes of a write, given the point's table of symbols, if it has
/// one, and the input it declares.
pub open spec fn write_decision(
    symbols: Option<Seq<Symbol>>,
    input: Option<InputType>,
    payload: Seq<char>,
) -> WriteDecision {
    match symbols {
        Some(table) => symbol_decision(table, payload),
        None => input_decision(input, payload),
    }
}

/// Resolves a payload against a table of symbols.
pub fn resolve_symbol(symbols: &Vec<Symbol>, payload: &str) -> (r: WriteDecision)
    ensures
        r == symbol_decision(symbols@, payload@),
{
    let n: usize = symbols.len();
    let mut i: usize = 0;
    while i < n
        invariant
            n == symbols@.len(),
            i <= n,
            forall|j: int| 0 <= j < i ==> symbol_ids(symbols@)[j] != payload@,
        decreases n - i,
    {
        if str_eq(symbols[i].id.as_str(), payload) {
            proof {
                assert(symbol_ids(symbols@)[i as int] == payload@);
                assert(symbol_ids(symbols@).contains(payload@));
                symbol_ids(symbols@).index_of_first_ensures(payload@);
            }
            return match parse_i64(symbols[i].symbol.as_str()) {
                Some(v) => WriteDecision::Write(v),
                None => WriteDecision::Drop(DropReason::SymbolNotNumeric),
            };
        }
        i = i + 1;
    }
    proof {
        symbol_ids(symbols@).index_of_first_ensures(payload@);
    }
    WriteDecision::Drop(DropReason::UnknownSymbol)
}

/// Validates a payload against the input that a point declares.
pub fn validate_input(input: Option<&InputType>, payload: &str) -> (r: WriteDecision)
    ensures
        r == input_decision(
            match input {
                Some(i) => Some(*i),
                None => None,
            },
            payload@,
        ),
{
    match input {
        None => WriteDecision::Drop(DropReason::NoInput),
        Some(InputType::Select(_)) => WriteDecision::Drop(DropReason::UnknownSymbol),
        Some(InputType::Switch(sw)) => {
            match (parse_u32(sw.on.as_str()), parse_u32(sw.off.as_str()), parse_u32(payload)) {
                (Some(on), Some(off), Some(p)) => if p == on || p == off {
                    WriteDecision::Write(p as i64)
                } else {
                    WriteDecision::Drop(DropReason::NotAllowed)
                },
                _ => WriteDecision::Drop(DropReason::NotNumeric),
            }
        },
        Some(InputType::Button(press)) => {
            match (parse_u32(press.as_str()), parse_u32(payload)) {
                (Some(b), Some(p)) => if p == b {
                    WriteDecision::Write(p as i64)
                } else {
                    WriteDecision::Drop(DropReason::NotAllowed)
                },
                _ => WriteDecision::Drop(DropReason::NotNumeric),
            }
        },
        Some(InputType::Number(n)) => match parse_i64(payload) {
            Some(v) => if n.min as i64 <= v && v <= n.max as i64 {
                WriteDecision::Write(v)
            } else {
                WriteDecision::Drop(DropReason::OutOfRange)
            },
            None => WriteDecision::Drop(DropReason::NotNumeric),
        },
    }
}

/// Decides what becomes of a write.
pub fn decide_write(symbols: Option<&Vec<Symbol>>, input: Option<&InputType>, payload: &str) -> (r:
    WriteDecision)
    ensures
        r == write_decision(
            match symbols {
                Some(t) => Some(t@),
                None => None,
            },
            match input {
                Some(i) => Some(*i),
                None => None,
            },
            payload@,
        ),
{
    match symbols {
        Some(table) => resolve_symbol(table, payload),
        None => validate_input(input, payload),
    }
}

/// A numeric input accepts exactly the payloads that denote a whole number
/// within its range, and writes that number. A payload that denotes no
/// number, or one outside the range, is dropped.
pub proof fn lemma_number_input(n: NumberInput, payload: Seq<char>)
    ensures
        match signed_decimal(payload) {
            Some(v) => if n.min <= v <= n.max {
                input_decision(Some(InputType::Number(n)), payload) == WriteDecision::Write(
                    v as i64,
                )
            } else {
                input_decision(Some(InputType::Number(n)), payload) is Drop
            },
            None => input_decision(Some(InputType::Number(n)), payload) == WriteDecision::Drop(
                DropReason::NotNumeric,
            ),
        },
{
}

/// A payload that names a symbol is written with the number of the first
/// symbol of that name, and a payload that names none is dropped.
pub proof fn lemma_symbol_round_trip(symbols: Seq<Symbol>, payload: Seq<char>)
    ensures
        !symbol_ids(symbols).contains(payload) ==> symbol_decision(symbols, payload)
            == WriteDecision::Drop(DropReason::UnknownSymbol),
        forall|i: int|
            0 <= i < symbols.len() && symbols[i].id@ == payload && (forall|j: int|
                0 <= j < i ==> symbols[j].id@ != payload) && i64_of(symbols[i].symbol@) is Some
                ==> symbol_decision(symbols, payload) == WriteDecision::Write(
                i64_of(symbols[i].symbol@)->0,
            ),
{
    symbol_ids(symbols).index_of_first_ensures(payload);
    assert forall|i: int|
        0 <= i < symbols.len() && symbols[i].id@ == payload && (forall|j: int|
            0 <= j < i ==> symbols[j].id@ != payload) && i64_of(
            symbols[i].symbol@,
        ) is Some implies symbol_decision(symbols, payload) == WriteDecision::Write(
        i64_of(symbols[i].symbol@)->0,
    ) by {
        assert(symbol_ids(symbols)[i] == payload);
        let k = symbol_ids(symbols).index_of_first(payload)->0;
        assert(symbol_ids(symbols)[k] == payload);
        if k < i {
            assert(symbols[k].id@ != payload);
        }
        if i < k {
            assert(symbol_ids(symbols)[i] != payload);
        }
    }
}

} // verus!
