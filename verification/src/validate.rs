//! Whether a metadata is acceptable for the channel that is being opened.

use vstd::prelude::*;
use vstd::string::StringExecFns;
use crate::address::{valid_ica_address, validate_ica_address};
use crate::error::{ContractError, ErrorView};
use crate::keys::{ICA_VERSION, TX_TYPE};
use crate::metadata::{Channel, IcaMetadata, MetadataView};
use crate::text::str_eq;

verus! {

/// The first of the four checks that `m` fails against a channel opened on
/// `connection_id`, in the order in which they are made: the protocol
/// version, the controller's connection, the shape of a non-empty address,
/// the transaction type. `None` where all four hold.
///
/// The host's connection is not among them. The local chain has no record of
/// the remote chain's connections, so the field is kept as it was told and
/// never checked.
pub open spec fn first_failure(m: MetadataView, connection_id: Seq<char>) -> Option<ErrorView> {
    if m.version != ICA_VERSION@ {
        Some(ErrorView::InvalidVersion { expected: ICA_VERSION@, actual: m.version })
    } else if m.controller_connection_id != connection_id {
        Some(ErrorView::InvalidConnection)
    } else if m.address.len() > 0 && !valid_ica_address(m.address) {
        Some(ErrorView::InvalidAddress)
    } else if m.tx_type != TX_TYPE@ {
        Some(ErrorView::UnsupportedTxType(m.tx_type))
    } else {
        None
    }
}

impl IcaMetadata {
    /// Checks the metadata against the channel and reports the first check
    /// that fails.
    pub fn validate(&self, channel: &Channel) -> (r: Result<(), ContractError>)
        ensures
            match first_failure(self@, channel.connection_id@) {
                Some(failure) => r matches Err(e) && e@ == failure,
                None => r is Ok,
            },
    {
        if !str_eq(self.version.as_str(), ICA_VERSION) {
            return Err(
                ContractError::InvalidVersion {
                    expected: String::from_str(ICA_VERSION),
                    actual: self.version.clone(),
                },
            );
        }
        if self.controller_connection_id != channel.connection_id {
            return Err(ContractError::InvalidConnection);
        }
        if !self.address.as_str().is_empty() {
            match validate_ica_address(self.address.as_str()) {
                Ok(()) => {},
                Err(e) => {
                    return Err(e);
                },
            }
        }
        if !str_eq(self.tx_type.as_str(), TX_TYPE) {
            return Err(ContractError::UnsupportedTxType(self.tx_type.clone()));
        }
        Ok(())
    }
}

} // verus!
