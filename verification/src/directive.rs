//! The parameters of an etching and the errors that reject them.

use vstd::prelude::*;

verus! {

/// The greatest divisibility a rune may have.
pub const MAX_DIVISIBILITY: u8 = 38;

/// A base name together with the bitmap of its display spacers. Only the base
/// name takes part in protocol rules.
#[derive(Clone, Copy, Debug, PartialEq, Eq)]
pub struct SpacedName {
    pub name: u128,
    pub spacers: u32,
}

/// The minting schedule. An absent bound leaves that side of its window open.
#[derive(Clone, Copy, Debug, PartialEq, Eq)]
pub struct EtchingTerms {
    pub amount: u128,
    pub cap: u128,
    pub height_start: Option<u64>,
    pub height_end: Option<u64>,
    pub offset_start: Option<u64>,
    pub offset_end: Option<u64>,
}

/// The allocation of the initial supply to an output of the reveal transaction.
#[derive(Clone, Copy, Debug, PartialEq, Eq)]
pub struct Edict {
    pub output: u32,
    pub amount: u128,
}

/// Everything an etching states about the rune it defines.
#[derive(Clone, Copy, Debug, PartialEq, Eq)]
pub struct EtchingDirective {
    pub name: u128,
    pub divisibility: u8,
    pub premine: u128,
    pub terms: Option<EtchingTerms>,
    pub symbol: char,
    pub spacers: u32,
    pub edict: Edict,
}

/// Why a name or a directive was turned down.
#[derive(Clone, Copy, Debug, PartialEq, Eq)]
pub enum ValidationError {
    DuplicatePending { name: u128 },
    ReservedName { name: u128 },
    AlreadyEtched { name: u128 },
    NameTooShort { name: u128, minimum: u128, height: u32 },
    IndexUnavailable,
    DivisibilityOutOfRange { divisibility: u8, limit: u8 },
}

/// Why a directive could not be turned into a message.
#[derive(Clone, Copy, Debug, PartialEq, Eq)]
pub enum EncodingError {
    MessageTooLarge { length: usize, limit: usize },
}

fn same_bound(a: Option<u64>, b: Option<u64>) -> (r: bool)
    ensures
        r == (a == b),
{
    match (a, b) {
        (None, None) => true,
        (Some(x), Some(y)) => x == y,
        _ => false,
    }
}

impl EtchingTerms {
    /// Whether two schedules are the same in every field.
    pub fn same(&self, other: &EtchingTerms) -> (r: bool)
        ensures
            r == (*self == *other),
    {
        self.amount == other.amount && self.cap == other.cap && same_bound(
            self.height_start,
            other.height_start,
        ) && same_bound(self.height_end, other.height_end) && same_bound(
            self.offset_start,
            other.offset_start,
        ) && same_bound(self.offset_end, other.offset_end)
    }
}

impl EtchingDirective {
    /// Whether two directives are the same in every field.
    pub fn same(&self, other: &EtchingDirective) -> (r: bool)
        ensures
            r == (*self == *other),
    {
        let terms = match (&self.terms, &other.terms) {
            (None, None) => true,
            (Some(a), Some(b)) => a.same(b),
            _ => false,
        };
        terms && self.name == other.name && self.divisibility == other.divisibility
            && self.premine == other.premine && self.symbol == other.symbol && self.spacers
            == other.spacers && self.edict.output == other.edict.output && self.edict.amount
            == other.edict.amount
    }

    /// A directive is valid when its divisibility is within the protocol's limit.
    pub open spec fn valid(&self) -> bool {
        self.divisibility <= MAX_DIVISIBILITY
    }

    /// Builds a directive, refusing a divisibility above the limit.
    pub fn new(
        name: SpacedName,
        divisibility: u8,
        premine: u128,
        terms: Option<EtchingTerms>,
        symbol: char,
        edict: Edict,
    ) -> (r: Result<EtchingDirective, ValidationError>)
        ensures
            r == if divisibility <= MAX_DIVISIBILITY {
                Ok::<EtchingDirective, ValidationError>(
                    (EtchingDirective {
                        name: name.name,
                        divisibility,
                        premine,
                        terms,
                        symbol,
                        spacers: name.spacers,
                        edict,
                    }),
                )
            } else {
                Err(
                    (ValidationError::DivisibilityOutOfRange {
                        divisibility,
                        limit: MAX_DIVISIBILITY,
                    }),
                )
            },
    {
        if divisibility > MAX_DIVISIBILITY {
            return Err(
                ValidationError::DivisibilityOutOfRange { divisibility, limit: MAX_DIVISIBILITY },
            );
        }
        Ok(
            EtchingDirective {
                name: name.name,
                divisibility,
                premine,
                terms,
                symbol,
                spacers: name.spacers,
                edict,
            },
        )
    }

    /// The name with its spacers, as it is displayed.
    pub fn spaced_name(&self) -> (r: SpacedName)
        ensures
            r == (SpacedName { name: self.name, spacers: self.spacers }),
    {
        SpacedName { name: self.name, spacers: self.spacers }
    }
}

} // verus!
