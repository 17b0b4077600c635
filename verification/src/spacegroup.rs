//! The description of a space group type.

use crate::error::SpglibError;
use crate::text::{decodable, decode_text, reads_as};
use vstd::prelude::*;

verus! {

/// A space group record as the engine returns it: two numbers, and the
/// symbols as zero-terminated byte buffers.
#[derive(Clone, Debug)]
pub struct RawSpacegroup {
    /// The number of the space group type in the International Tables.
    pub number: i32,
    /// The short Hermann-Mauguin symbol. As a buffer.
    pub international_short: Vec<u8>,
    /// The full Hermann-Mauguin symbol. As a buffer.
    pub international_full: Vec<u8>,
    /// The plain Hermann-Mauguin symbol. As a buffer.
    pub international: Vec<u8>,
    /// The Schoenflies symbol. As a buffer.
    pub schoenflies: Vec<u8>,
    /// The Hall symbol. As a buffer.
    pub hall_symbol: Vec<u8>,
    /// The unique axis, setting or cell choice. As a buffer.
    pub choice: Vec<u8>,
    /// The Hermann-Mauguin symbol of the point group. As a buffer.
    pub pointgroup_international: Vec<u8>,
    /// The Schoenflies symbol of the point group. As a buffer.
    pub pointgroup_schoenflies: Vec<u8>,
    /// The number of the arithmetic crystal class.
    pub arithmetic_crystal_class_number: i32,
    /// The symbol of the arithmetic crystal class. As a buffer.
    pub arithmetic_crystal_class_symbol: Vec<u8>,
}

/// The description of a space group type.
#[derive(Clone, Debug)]
pub struct Spacegroup {
    /// The number of the space group type in the International Tables.
    pub number: i32,
    /// The short Hermann-Mauguin symbol.
    pub international_short: String,
    /// The full Hermann-Mauguin symbol.
    pub international_full: String,
    /// The plain Hermann-Mauguin symbol.
    pub international: String,
    /// The Schoenflies symbol.
    pub schoenflies: String,
    /// The Hall symbol.
    pub hall_symbol: String,
    /// The unique axis, setting or cell choice.
    pub choice: String,
    /// The Hermann-Mauguin symbol of the point group.
    pub pointgroup_international: String,
    /// The Schoenflies symbol of the point group.
    pub pointgroup_schoenflies: String,
    /// The number of the arithmetic crystal class.
    pub arithmetic_crystal_class_number: i32,
    /// The symbol of the arithmetic crystal class.
    pub arithmetic_crystal_class_symbol: String,
}

impl RawSpacegroup {
    /// Whether every symbol of the record holds a text.
    pub open spec fn texts_decodable(&self) -> bool {
        &&& decodable(self.international_short@)
        &&& decodable(self.international_full@)
        &&& decodable(self.international@)
        &&& decodable(self.schoenflies@)
        &&& decodable(self.hall_symbol@)
        &&& decodable(self.choice@)
        &&& decodable(self.pointgroup_international@)
        &&& decodable(self.pointgroup_schoenflies@)
        &&& decodable(self.arithmetic_crystal_class_symbol@)
    }
}

impl Spacegroup {
    /// Whether this description is what the record `raw` says: the numbers as
    /// they are, and each symbol the text that its buffer holds.
    pub open spec fn marshals(&self, raw: &RawSpacegroup) -> bool {
        &&& self.number == raw.number
        &&& self.arithmetic_crystal_class_number == raw.arithmetic_crystal_class_number
        &&& reads_as(raw.international_short@, self.international_short@)
        &&& reads_as(raw.international_full@, self.international_full@)
        &&& reads_as(raw.international@, self.international@)
        &&& reads_as(raw.schoenflies@, self.schoenflies@)
        &&& reads_as(raw.hall_symbol@, self.hall_symbol@)
        &&& reads_as(raw.choice@, self.choice@)
        &&& reads_as(raw.pointgroup_international@, self.pointgroup_international@)
        &&& reads_as(raw.pointgroup_schoenflies@, self.pointgroup_schoenflies@)
        &&& reads_as(raw.arithmetic_crystal_class_symbol@, self.arithmetic_crystal_class_symbol@)
    }

    /// Turns an engine record into an owned description.
    ///
    /// Succeeds exactly where every symbol of the record holds a text; any
    /// other record is `Unknown`.
    pub fn try_from(raw: &RawSpacegroup) -> (group: Result<Spacegroup, SpglibError>)
        ensures
            match group {
                Ok(g) => raw.texts_decodable() && g.marshals(raw),
                Err(e) => e == SpglibError::Unknown && !raw.texts_decodable(),
            },
    {
        let number: i32 = raw.number;
        let international_short = match decode_text(raw.international_short.as_slice()) {
            Ok(s) => s,
            Err(e) => {
                return Err(e);
            },
        };
        let international_full = match decode_text(raw.international_full.as_slice()) {
            Ok(s) => s,
            Err(e) => {
                return Err(e);
            },
        };
        let international = match decode_text(raw.international.as_slice()) {
            Ok(s) => s,
            Err(e) => {
                return Err(e);
            },
        };
        let schoenflies = match decode_text(raw.schoenflies.as_slice()) {
            Ok(s) => s,
            Err(e) => {
                return Err(e);
            },
        };
        let hall_symbol = match decode_text(raw.hall_symbol.as_slice()) {
            Ok(s) => s,
            Err(e) => {
                return Err(e);
            },
        };
        let choice = match decode_text(raw.choice.as_slice()) {
            Ok(s) => s,
            Err(e) => {
                return Err(e);
            },
        };
        let pointgroup_international = match decode_text(raw.pointgroup_international.as_slice()) {
            Ok(s) => s,
            Err(e) => {
                return Err(e);
            },
        };
        let pointgroup_schoenflies = match decode_text(raw.pointgroup_schoenflies.as_slice()) {
            Ok(s) => s,
            Err(e) => {
                return Err(e);
            },
        };
        let arithmetic_crystal_class_number: i32 = raw.arithmetic_crystal_class_number;
        let arithmetic_crystal_class_symbol = match decode_text(raw.arithmetic_crystal_class_symbol.as_slice()) {
            Ok(s) => s,
            Err(e) => {
                return Err(e);
            },
        };
        Ok(
            Spacegroup {
                number,
                international_short,
                international_full,
                international,
                schoenflies,
                hall_symbol,
                choice,
                pointgroup_international,
                pointgroup_schoenflies,
                arithmetic_crystal_class_number,
                arithmetic_crystal_class_symbol,
            },
        )
    }

    /// A record says one thing only: two descriptions of the same record have
    /// the same numbers and the same symbols.
    pub proof fn lemma_one_description(a: Spacegroup, b: Spacegroup, raw: RawSpacegroup)
        requires
            a.marshals(&raw),
            b.marshals(&raw),
        ensures
            a.number == b.number,
            a.arithmetic_crystal_class_number == b.arithmetic_crystal_class_number,
            a.international_short@ == b.international_short@,
            a.international_full@ == b.international_full@,
            a.international@ == b.international@,
            a.schoenflies@ == b.schoenflies@,
            a.hall_symbol@ == b.hall_symbol@,
            a.choice@ == b.choice@,
            a.pointgroup_international@ == b.pointgroup_international@,
            a.pointgroup_schoenflies@ == b.pointgroup_schoenflies@,
            a.arithmetic_crystal_class_symbol@ == b.arithmetic_crystal_class_symbol@,
    {
    }
}

} // verus!
