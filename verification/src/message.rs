//! The versioned-message model: a plain-value mirror of a compiled
//! transaction message, produced from the node's encoded transaction by the
//! trusted decoding wrappers at the bottom of this file.

use vstd::prelude::*;

use crate::Address;

verus! {

/// The three counts at the head of a compiled message. Together with the
/// static account list length they determine each static account's signer
/// and writability flags.
pub struct MessageHeader {
    /// Accounts `0..num_required_signatures` are signers.
    pub num_required_signatures: u8,
    /// The trailing portion of the signer range that is read-only.
    pub num_readonly_signed_accounts: u8,
    /// The trailing portion of the non-signer static range that is read-only.
    pub num_readonly_unsigned_accounts: u8,
}

/// One top-level instruction of a compiled message; accounts and program are
/// small indexes into the message's account list.
pub struct CompiledIx {
    /// Index of the target program in the static account list.
    pub program_id_index: u8,
    /// Indexes of the instruction's account inputs.
    pub accounts: Vec<u8>,
    /// Opaque instruction payload.
    pub data: Vec<u8>,
}

/// One address-table lookup of a v0 message: a lookup-table account plus the
/// writable and read-only index lists into that table's address array.
pub struct AddressTableLookup {
    /// The lookup-table account to fetch.
    pub account_key: Address,
    /// Indexes expanded as writable accounts.
    pub writable_indexes: Vec<u8>,
    /// Indexes expanded as read-only accounts.
    pub readonly_indexes: Vec<u8>,
}

/// A legacy message: a static account list only.
pub struct LegacyMessage {
    pub header: MessageHeader,
    pub account_keys: Vec<Address>,
    pub recent_blockhash: Address,
    pub instructions: Vec<CompiledIx>,
}

/// A v0 message: a static account list plus address-table lookups.
pub struct V0Message {
    pub header: MessageHeader,
    pub account_keys: Vec<Address>,
    pub recent_blockhash: Address,
    pub instructions: Vec<CompiledIx>,
    pub address_table_lookups: Vec<AddressTableLookup>,
}

/// The two supported message versions.
pub enum ParsedMessage {
    Legacy(LegacyMessage),
    V0(V0Message),
}

impl ParsedMessage {
    /// The static account list, whichever the version.
    pub open spec fn spec_static_keys(&self) -> Seq<Address> {
        match self {
            ParsedMessage::Legacy(m) => m.account_keys@,
            ParsedMessage::V0(m) => m.account_keys@,
        }
    }

    /// The message header, whichever the version.
    pub open spec fn spec_header(&self) -> MessageHeader {
        match self {
            ParsedMessage::Legacy(m) => m.header,
            ParsedMessage::V0(m) => m.header,
        }
    }

    /// The recent blockhash, whichever the version.
    pub open spec fn spec_blockhash(&self) -> Address {
        match self {
            ParsedMessage::Legacy(m) => m.recent_blockhash,
            ParsedMessage::V0(m) => m.recent_blockhash,
        }
    }

    /// The address-table lookups: none for a legacy message.
    pub open spec fn spec_lookups(&self) -> Seq<AddressTableLookup> {
        match self {
            ParsedMessage::Legacy(_) => Seq::<AddressTableLookup>::empty(),
            ParsedMessage::V0(m) => m.address_table_lookups@,
        }
    }

    /// The instruction list, whichever the version.
    pub open spec fn spec_instructions(&self) -> Seq<CompiledIx> {
        match self {
            ParsedMessage::Legacy(m) => m.instructions@,
            ParsedMessage::V0(m) => m.instructions@,
        }
    }

    /// Every instruction's indexes stay inside the static account list. The
    /// block and transaction paths require this before walking instructions.
    pub open spec fn spec_instructions_wf(&self) -> bool {
        forall|i: int|
            0 <= i < self.spec_instructions().len() ==> (
            #[trigger] self.spec_instructions()[i]).program_id_index
                < self.spec_static_keys().len()
    }

    /// Checks that every instruction's program index stays inside the static
    /// account list.
    pub fn instructions_wf(&self) -> (r: bool)
        ensures
            r == self.spec_instructions_wf(),
    {
        let ixs: &Vec<CompiledIx> = match self {
            ParsedMessage::Legacy(m) => &m.instructions,
            ParsedMessage::V0(m) => &m.instructions,
        };
        let n_keys: usize = match self {
            ParsedMessage::Legacy(m) => m.account_keys.len(),
            ParsedMessage::V0(m) => m.account_keys.len(),
        };
        let mut i: usize = 0;
        while i < ixs.len()
            invariant
                i <= ixs@.len(),
                ixs@ == self.spec_instructions(),
                n_keys == self.spec_static_keys().len(),
                forall|j: int|
                    0 <= j < i ==> (#[trigger] ixs@[j]).program_id_index < n_keys,
            decreases ixs@.len() - i,
        {
            if ixs[i].program_id_index as usize >= n_keys {
                return false;
            }
            i += 1;
        }
        true
    }
}

#[verifier::external_type_specification]
#[verifier::external_body]
pub struct ExEncodedTransaction(solana_transaction_status_client_types::EncodedTransaction);

#[verifier::external_type_specification]
#[verifier::external_body]
pub struct ExVersionedMessage(solana_sdk::message::VersionedMessage);

/// Relies on `EncodedTransaction::decode`: base58 or base64 decoding plus
/// binary deserialization of the wire transaction; nothing for a
/// JSON-encoded response or a blob that does not decode.
#[verifier::external_body]
fn decode_wire_transaction(
    tx: &solana_transaction_status_client_types::EncodedTransaction,
) -> Option<solana_sdk::message::VersionedMessage> {
    tx.decode().map(|t| t.message)
}

/// Relies on `VersionedMessage::header`: copies the three header counts.
#[verifier::external_body]
fn msg_header(m: &solana_sdk::message::VersionedMessage) -> MessageHeader {
    let h = m.header();
    MessageHeader {
        num_required_signatures: h.num_required_signatures,
        num_readonly_signed_accounts: h.num_readonly_signed_accounts,
        num_readonly_unsigned_accounts: h.num_readonly_unsigned_accounts,
    }
}

/// Relies on `VersionedMessage::static_account_keys`: copies each static
/// key's raw bytes, in message order.
#[verifier::external_body]
fn msg_static_keys(m: &solana_sdk::message::VersionedMessage) -> Vec<Address> {
    m.static_account_keys().iter().map(|k| k.to_bytes()).collect()
}

/// Relies on `VersionedMessage::recent_blockhash`: copies its raw bytes.
#[verifier::external_body]
fn msg_blockhash(m: &solana_sdk::message::VersionedMessage) -> Address {
    m.recent_blockhash().to_bytes()
}

/// Relies on `VersionedMessage::instructions`: copies each compiled
/// instruction's index and byte lists, in message order.
#[verifier::external_body]
fn msg_instructions(m: &solana_sdk::message::VersionedMessage) -> Vec<CompiledIx> {
    m.instructions().iter().map(
        |ix| CompiledIx {
            program_id_index: ix.program_id_index,
            accounts: ix.accounts.clone(),
            data: ix.data.clone(),
        },
    ).collect()
}

/// Relies on `VersionedMessage::address_table_lookups`: nothing for a
/// legacy message; each lookup's table key and index lists, in message
/// order, for a v0 message.
#[verifier::external_body]
fn msg_lookups(m: &solana_sdk::message::VersionedMessage) -> Option<Vec<AddressTableLookup>> {
    m.address_table_lookups().map(
        |ls| ls.iter().map(
            |l| AddressTableLookup {
                account_key: l.account_key.to_bytes(),
                writable_indexes: l.writable_indexes.clone(),
                readonly_indexes: l.readonly_indexes.clone(),
            },
        ).collect(),
    )
}

/// Decodes the node's encoded transaction into the plain message model:
/// legacy when the wire message carries no lookup list, v0 otherwise;
/// nothing when the blob does not decode. What the model contains is opaque
/// here; the resolution functions state exactly what they compute from it.
pub fn decode_message(
    tx: &solana_transaction_status_client_types::EncodedTransaction,
) -> Option<ParsedMessage> {
    let m = match decode_wire_transaction(tx) {
        Option::Some(m) => m,
        Option::None => {
            return Option::None;
        },
    };
    let header = msg_header(&m);
    let account_keys = msg_static_keys(&m);
    let recent_blockhash = msg_blockhash(&m);
    let instructions = msg_instructions(&m);
    match msg_lookups(&m) {
        Option::None => Option::Some(
            ParsedMessage::Legacy(
                LegacyMessage { header, account_keys, recent_blockhash, instructions },
            ),
        ),
        Option::Some(address_table_lookups) => Option::Some(
            ParsedMessage::V0(
                V0Message {
                    header,
                    account_keys,
                    recent_blockhash,
                    instructions,
                    address_table_lookups,
                },
            ),
        ),
    }
}

} // verus!
