//! What describes the token: its name, its symbol, how many decimals an
//! amount is shown with, and an optional icon.

use vstd::prelude::*;

verus! {

/// The largest number of decimals that a token may have.
pub const MAX_DECIMALS: u8 = 18;

/// The description of a token. It is fixed when the ledger is created.
#[derive(Debug, PartialEq, Eq)]
pub struct FTMetadata {
    pub name: String,
    pub decimals: u8,
    pub symbol: String,
    pub icon: Option<String>,
}

/// The content of an [`FTMetadata`].
pub struct MetadataView {
    pub name: Seq<char>,
    pub decimals: u8,
    pub symbol: Seq<char>,
    pub icon: Option<Seq<char>>,
}

impl MetadataView {
    /// The metadata asks for no more than [`MAX_DECIMALS`] decimals.
    pub open spec fn valid(self) -> bool {
        self.decimals <= MAX_DECIMALS
    }
}

impl View for FTMetadata {
    type V = MetadataView;

    open spec fn view(&self) -> MetadataView {
        MetadataView {
            name: self.name@,
            decimals: self.decimals,
            symbol: self.symbol@,
            icon: match self.icon {
                Some(icon) => Some(icon@),
                None => None,
            },
        }
    }
}

impl Clone for FTMetadata {
    fn clone(&self) -> (copy: Self)
        ensures
            copy@ == self@,
    {
        let icon = match &self.icon {
            Some(icon) => Some(icon.clone()),
            None => None,
        };
        FTMetadata {
            name: self.name.clone(),
            decimals: self.decimals,
            symbol: self.symbol.clone(),
            icon,
        }
    }
}

impl FTMetadata {
    /// Puts a description together from its parts.
    pub fn new(name: String, decimals: u8, symbol: String, icon: Option<String>) -> (metadata: Self)
        ensures
            metadata.name == name,
            metadata.decimals == decimals,
            metadata.symbol == symbol,
            metadata.icon == icon,
    {
        FTMetadata { name, decimals, symbol, icon }
    }

    /// Whether the description asks for no more than [`MAX_DECIMALS`] decimals.
    pub fn is_valid(&self) -> (valid: bool)
        ensures
            valid == self@.valid(),
    {
        self.decimals <= MAX_DECIMALS
    }
}

} // verus!
