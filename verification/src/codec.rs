//! Wire-format encoding of remote procedure calls: an 8-byte method selector
//! derived by hashing a namespaced method name, followed by the serialized
//! call arguments, together with the per-operation account-reference list.

use vstd::prelude::*;
use crate::address::Address;

verus! {

// ---------------------------------------------------------------------------
// SHA-256, behind a trusted wrapper.
// ---------------------------------------------------------------------------

/// The SHA-256 digest of a byte string: a function of the bytes alone.
pub uninterp spec fn sha256_of(data: Seq<u8>) -> Seq<u8>;

/// Relies on `solana_sdk::hash::hash`, which returns the SHA-256 digest of
/// the given bytes: 32 bytes that depend on the input alone.
#[verifier::external_body]
fn sha256(data: &Vec<u8>) -> (r: [u8; 32])
    ensures
        r@ == sha256_of(data@),
{
    solana_sdk::hash::hash(data.as_slice()).to_bytes()
}

// ---------------------------------------------------------------------------
// Method names and selectors.
// ---------------------------------------------------------------------------

/// The UTF-8 bytes of "global:", the namespace prefix of every method name.
pub open spec fn global_namespace() -> Seq<u8> {
    seq![103u8, 108u8, 111u8, 98u8, 97u8, 108u8, 58u8]
}

/// The UTF-8 bytes of "account:", the namespace prefix of every stored
/// record name.
pub open spec fn account_namespace() -> Seq<u8> {
    seq![97u8, 99u8, 99u8, 111u8, 117u8, 110u8, 116u8, 58u8]
}

/// The 8-byte selector that dispatches a remote call: the first 8 bytes of
/// the SHA-256 digest of "global:" followed by the method name.
pub open spec fn selector_of(name: Seq<u8>) -> Seq<u8> {
    sha256_of(global_namespace() + name).take(8)
}

/// The 8-byte tag that identifies a stored record type: the first 8 bytes of
/// the SHA-256 digest of "account:" followed by the record name.
pub open spec fn record_tag_of(name: Seq<u8>) -> Seq<u8> {
    sha256_of(account_namespace() + name).take(8)
}

/// Copies the first 8 bytes of a digest into a fresh vector.
fn take_8(digest: &[u8; 32]) -> (r: Vec<u8>)
    ensures
        r@ == digest@.take(8),
{
    let mut out: Vec<u8> = Vec::new();
    let mut i: usize = 0;
    while i < 8
        invariant
            0 <= i <= 8,
            out@.len() == i,
            forall|k: int| 0 <= k < i ==> out@[k] == digest@[k],
        decreases 8 - i,
    {
        out.push(digest[i]);
        i = i + 1;
    }
    proof {
        assert(out@ =~= digest@.take(8));
    }
    out
}

/// Appends every byte of `b` to `out`.
fn push_bytes(out: &mut Vec<u8>, b: &Vec<u8>)
    ensures
        final(out)@ == old(out)@ + b@,
{
    let mut i: usize = 0;
    while i < b.len()
        invariant
            0 <= i <= b@.len(),
            out@.len() == old(out)@.len() + i,
            forall|k: int| 0 <= k < old(out)@.len() ==> out@[k] == old(out)@[k],
            forall|k: int| 0 <= k < i ==> out@[old(out)@.len() + k] == b@[k],
        decreases b@.len() - i,
    {
        out.push(b[i]);
        i = i + 1;
    }
    proof {
        assert(out@ =~= old(out)@ + b@);
    }
}

/// Computes the 8-byte method selector for a method name.
pub fn method_selector(name: &Vec<u8>) -> (r: Vec<u8>)
    ensures
        r@ == selector_of(name@),
        r@.len() == 8,
{
    let mut preimage: Vec<u8> = Vec::new();
    preimage.push(103);
    preimage.push(108);
    preimage.push(111);
    preimage.push(98);
    preimage.push(97);
    preimage.push(108);
    preimage.push(58);
    proof {
        assert(preimage@ =~= global_namespace());
    }
    push_bytes(&mut preimage, name);
    let digest = sha256(&preimage);
    take_8(&digest)
}

/// Computes the 8-byte tag of a stored record type.
pub fn record_tag(name: &Vec<u8>) -> (r: Vec<u8>)
    ensures
        r@ == record_tag_of(name@),
        r@.len() == 8,
{
    let mut preimage: Vec<u8> = Vec::new();
    preimage.push(97);
    preimage.push(99);
    preimage.push(99);
    preimage.push(111);
    preimage.push(117);
    preimage.push(110);
    preimage.push(116);
    preimage.push(58);
    proof {
        assert(preimage@ =~= account_namespace());
    }
    push_bytes(&mut preimage, name);
    let digest = sha256(&preimage);
    take_8(&digest)
}

// ---------------------------------------------------------------------------
// Little-endian integer fields.
// ---------------------------------------------------------------------------

/// The 4 little-endian bytes of a 32-bit value.
pub open spec fn u32_le_bytes(v: u32) -> Seq<u8> {
    seq![
        (v as int % 256) as u8,
        (v as int / 256 % 256) as u8,
        (v as int / 65536 % 256) as u8,
        (v as int / 16777216 % 256) as u8,
    ]
}

/// The 8 little-endian bytes of a 64-bit value.
pub open spec fn u64_le_bytes(v: u64) -> Seq<u8> {
    seq![
        (v as int % 256) as u8,
        (v as int / 256 % 256) as u8,
        (v as int / 65536 % 256) as u8,
        (v as int / 16777216 % 256) as u8,
        (v as int / 4294967296 % 256) as u8,
        (v as int / 1099511627776 % 256) as u8,
        (v as int / 281474976710656 % 256) as u8,
        (v as int / 72057594037927936 % 256) as u8,
    ]
}

/// Appends the 4 little-endian bytes of `v` to `out`.
pub fn push_u32_le(out: &mut Vec<u8>, v: u32)
    ensures
        final(out)@ == old(out)@ + u32_le_bytes(v),
{
    out.push((v % 256) as u8);
    out.push((v / 256 % 256) as u8);
    out.push((v / 65536 % 256) as u8);
    out.push((v / 16777216 % 256) as u8);
    proof {
        assert(out@ =~= old(out)@ + u32_le_bytes(v));
    }
}

/// Appends the 8 little-endian bytes of `v` to `out`.
pub fn push_u64_le(out: &mut Vec<u8>, v: u64)
    ensures
        final(out)@ == old(out)@ + u64_le_bytes(v),
{
    out.push((v % 256) as u8);
    out.push((v / 256 % 256) as u8);
    out.push((v / 65536 % 256) as u8);
    out.push((v / 16777216 % 256) as u8);
    out.push((v / 4294967296 % 256) as u8);
    out.push((v / 1099511627776 % 256) as u8);
    out.push((v / 281474976710656 % 256) as u8);
    out.push((v / 72057594037927936 % 256) as u8);
    proof {
        assert(out@ =~= old(out)@ + u64_le_bytes(v));
    }
}

// ---------------------------------------------------------------------------
// Commands and their argument serialization.
// ---------------------------------------------------------------------------

/// Arguments of the `start_subscription` operation.
pub struct StartSubscriptionArgs {
    /// UTF-8 bytes of the subscription identifier.
    pub subscription_id: Vec<u8>,
    pub validation_threshold: u64,
}

/// Arguments of the `make_payment` operation.
pub struct MakePaymentArgs {
    pub amount: u64,
}

/// Arguments of the `withdraw_funds` operation.
pub struct WithdrawFundsArgs {
    pub validation_data: u64,
}

/// One remote operation, with its typed arguments.
pub enum Command {
    StartSubscription(StartSubscriptionArgs),
    MakePayment(MakePaymentArgs),
    CancelSubscription,
    WithdrawFunds(WithdrawFundsArgs),
}

/// The UTF-8 bytes of "start_subscription".
pub open spec fn start_subscription_name() -> Seq<u8> {
    seq![
        115u8, 116u8, 97u8, 114u8, 116u8, 95u8, 115u8, 117u8, 98u8, 115u8, 99u8, 114u8, 105u8,
        112u8, 116u8, 105u8, 111u8, 110u8,
    ]
}

/// The UTF-8 bytes of "make_payment".
pub open spec fn make_payment_name() -> Seq<u8> {
    seq![109u8, 97u8, 107u8, 101u8, 95u8, 112u8, 97u8, 121u8, 109u8, 101u8, 110u8, 116u8]
}

/// The UTF-8 bytes of "cancel_subscription".
pub open spec fn cancel_subscription_name() -> Seq<u8> {
    seq![
        99u8, 97u8, 110u8, 99u8, 101u8, 108u8, 95u8, 115u8, 117u8, 98u8, 115u8, 99u8, 114u8,
        105u8, 112u8, 116u8, 105u8, 111u8, 110u8,
    ]
}

/// The UTF-8 bytes of "withdraw_funds".
pub open spec fn withdraw_funds_name() -> Seq<u8> {
    seq![
        119u8, 105u8, 116u8, 104u8, 100u8, 114u8, 97u8, 119u8, 95u8, 102u8, 117u8, 110u8, 100u8,
        115u8,
    ]
}

/// The method name a command is dispatched under.
pub open spec fn method_name_bytes(cmd: Command) -> Seq<u8> {
    match cmd {
        Command::StartSubscription(_) => start_subscription_name(),
        Command::MakePayment(_) => make_payment_name(),
        Command::CancelSubscription => cancel_subscription_name(),
        Command::WithdrawFunds(_) => withdraw_funds_name(),
    }
}

/// A byte string preceded by its 32-bit little-endian length.
pub open spec fn length_prefixed(b: Seq<u8>) -> Seq<u8> {
    u32_le_bytes(b.len() as u32) + b
}

/// The serialized argument bytes of a command: fields in declaration order,
/// integers little-endian, byte strings length-prefixed.
pub open spec fn args_bytes(cmd: Command) -> Seq<u8> {
    match cmd {
        Command::StartSubscription(args) => length_prefixed(args.subscription_id@)
            + u64_le_bytes(args.validation_threshold),
        Command::MakePayment(args) => u64_le_bytes(args.amount),
        Command::CancelSubscription => Seq::empty(),
        Command::WithdrawFunds(args) => u64_le_bytes(args.validation_data),
    }
}

/// Whether a command's arguments can be serialized: a subscription identifier
/// must fit its 32-bit length prefix.
pub open spec fn encodable(cmd: Command) -> bool {
    match cmd {
        Command::StartSubscription(args) => args.subscription_id@.len() <= u32::MAX,
        _ => true,
    }
}

/// The full call payload of a command: selector, then argument bytes.
pub open spec fn instruction_data_bytes(cmd: Command) -> Seq<u8> {
    selector_of(method_name_bytes(cmd)) + args_bytes(cmd)
}

/// Serialization failed; a schema error that is never retried.
#[derive(Debug)]
pub enum EncodingError {
    SubscriptionIdTooLong,
}

/// The method name of a command, as bytes.
pub fn method_name(cmd: &Command) -> (r: Vec<u8>)
    ensures
        r@ == method_name_bytes(*cmd),
{
    let mut name: Vec<u8> = Vec::new();
    match cmd {
        Command::StartSubscription(_) => {
            name.push(115);
            name.push(116);
            name.push(97);
            name.push(114);
            name.push(116);
            name.push(95);
            name.push(115);
            name.push(117);
            name.push(98);
            name.push(115);
            name.push(99);
            name.push(114);
            name.push(105);
            name.push(112);
            name.push(116);
            name.push(105);
            name.push(111);
            name.push(110);
            proof {
                assert(name@ =~= start_subscription_name());
            }
        },
        Command::MakePayment(_) => {
            name.push(109);
            name.push(97);
            name.push(107);
            name.push(101);
            name.push(95);
            name.push(112);
            name.push(97);
            name.push(121);
            name.push(109);
            name.push(101);
            name.push(110);
            name.push(116);
            proof {
                assert(name@ =~= make_payment_name());
            }
        },
        Command::CancelSubscription => {
            name.push(99);
            name.push(97);
            name.push(110);
            name.push(99);
            name.push(101);
            name.push(108);
            name.push(95);
            name.push(115);
            name.push(117);
            name.push(98);
            name.push(115);
            name.push(99);
            name.push(114);
            name.push(105);
            name.push(112);
            name.push(116);
            name.push(105);
            name.push(111);
            name.push(110);
            proof {
                assert(name@ =~= cancel_subscription_name());
            }
        },
        Command::WithdrawFunds(_) => {
            name.push(119);
            name.push(105);
            name.push(116);
            name.push(104);
            name.push(100);
            name.push(114);
            name.push(97);
            name.push(119);
            name.push(95);
            name.push(102);
            name.push(117);
            name.push(110);
            name.push(100);
            name.push(115);
            proof {
                assert(name@ =~= withdraw_funds_name());
            }
        },
    }
    name
}

/// Builds the full call payload of a command: the 8-byte selector followed by
/// the serialized arguments. Fails exactly when the arguments cannot be
/// serialized.
pub fn encode_instruction_data(cmd: &Command) -> (r: Result<Vec<u8>, EncodingError>)
    ensures
        r is Ok <==> encodable(*cmd),
        (r matches Ok(data) ==> data@ == instruction_data_bytes(*cmd)),
{
    let name = method_name(cmd);
    let mut data = method_selector(&name);
    match cmd {
        Command::StartSubscription(args) => {
            if args.subscription_id.len() > u32::MAX as usize {
                return Err(EncodingError::SubscriptionIdTooLong);
            }
            push_u32_le(&mut data, args.subscription_id.len() as u32);
            push_bytes(&mut data, &args.subscription_id);
            push_u64_le(&mut data, args.validation_threshold);
            proof {
                assert(data@ =~= instruction_data_bytes(*cmd));
            }
        },
        Command::MakePayment(args) => {
            push_u64_le(&mut data, args.amount);
        },
        Command::CancelSubscription => {
            proof {
                assert(data@ =~= instruction_data_bytes(*cmd));
            }
        },
        Command::WithdrawFunds(args) => {
            push_u64_le(&mut data, args.validation_data);
        },
    }
    Ok(data)
}

// ---------------------------------------------------------------------------
// Account references and the assembled call.
// ---------------------------------------------------------------------------

/// One entry of a call's ordered account-reference list.
#[derive(Clone, Copy)]
pub struct AccountRef {
    pub address: Address,
    pub is_writable: bool,
    pub is_signer: bool,
}

/// The full shape of one remote procedure invocation.
pub struct InstructionCall {
    pub program_id: Address,
    pub data: Vec<u8>,
    pub accounts: Vec<AccountRef>,
}

/// The address of the system program: 32 zero bytes.
pub open spec fn system_program_id_bytes() -> Seq<u8> {
    Seq::new(32, |i: int| 0u8)
}

/// Returns the system program's address.
pub fn system_program_address() -> (r: Address)
    ensures
        r@ == system_program_id_bytes(),
{
    let bytes = vstd::array::array_fill_for_copy_types::<u8, 32>(0);
    proof {
        vstd::array::axiom_spec_array_fill_for_copy_type::<u8, 32>(0);
        assert(bytes@ =~= system_program_id_bytes());
    }
    Address { bytes }
}

/// Whether one account reference names the given address with the given
/// writable and signer flags.
pub open spec fn ref_is(r: AccountRef, addr: Seq<u8>, writable: bool, signer: bool) -> bool {
    r.address@ == addr && r.is_writable == writable && r.is_signer == signer
}

/// The fixed account-reference list of a command: the escrow account, the
/// buyer, the seller, then the system program. The buyer signs every
/// operation but withdrawal, which the seller signs instead; the seller's
/// entry is read-only exactly for `start_subscription`.
pub open spec fn call_accounts_ok(
    cmd: Command,
    accounts: Seq<AccountRef>,
    escrow_account: Seq<u8>,
    buyer: Seq<u8>,
    seller: Seq<u8>,
) -> bool {
    &&& accounts.len() == 4
    &&& ref_is(accounts[0], escrow_account, true, false)
    &&& ref_is(accounts[1], buyer, true, !(cmd is WithdrawFunds))
    &&& (match cmd {
        Command::StartSubscription(_) => ref_is(accounts[2], seller, false, false),
        Command::MakePayment(_) => ref_is(accounts[2], seller, true, false),
        Command::CancelSubscription => ref_is(accounts[2], seller, true, false),
        Command::WithdrawFunds(_) => ref_is(accounts[2], seller, true, true),
    })
    &&& ref_is(accounts[3], system_program_id_bytes(), false, false)
}

/// Assembles one full remote invocation of a command against the derived
/// escrow account: payload bytes plus the per-operation account-reference
/// list. Fails exactly when the arguments cannot be serialized.
pub fn build_instruction_call(
    cmd: &Command,
    escrow_account: &Address,
    buyer: &Address,
    seller: &Address,
    program: &Address,
) -> (r: Result<InstructionCall, EncodingError>)
    ensures
        r is Ok <==> encodable(*cmd),
        (r matches Ok(call) ==> {
            &&& call.program_id@ == program@
            &&& call.data@ == instruction_data_bytes(*cmd)
            &&& call_accounts_ok(*cmd, call.accounts@, escrow_account@, buyer@, seller@)
        }),
{
    let data = match encode_instruction_data(cmd) {
        Ok(d) => d,
        Err(e) => {
            return Err(e);
        },
    };
    let (seller_writable, seller_signs) = match cmd {
        Command::StartSubscription(_) => (false, false),
        Command::MakePayment(_) => (true, false),
        Command::CancelSubscription => (true, false),
        Command::WithdrawFunds(_) => (true, true),
    };
    let buyer_signs = match cmd {
        Command::WithdrawFunds(_) => false,
        _ => true,
    };
    let mut accounts: Vec<AccountRef> = Vec::new();
    accounts.push(AccountRef { address: *escrow_account, is_writable: true, is_signer: false });
    accounts.push(AccountRef { address: *buyer, is_writable: true, is_signer: buyer_signs });
    accounts.push(
        AccountRef { address: *seller, is_writable: seller_writable, is_signer: seller_signs },
    );
    accounts.push(
        AccountRef { address: system_program_address(), is_writable: false, is_signer: false },
    );
    Ok(InstructionCall { program_id: *program, data, accounts })
}

} // verus!
