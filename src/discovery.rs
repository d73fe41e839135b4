//! Discovery of sponsored accounts: recognising account-creation instructions
//! in parsed transactions, dating them, and paging through the operator's
//! signature history without recording an address twice.
use crate::address::{decoded_address, Address};
use crate::text::{contains_text, has_substring, same_text};
use vstd::prelude::*;

verus! {

/// Rent-exempt minimum of an associated token account, in lamports.
pub const ATA_RENT_EXEMPTION: u64 = 2_039_280;

/// Size in bytes of a token account.
pub const TOKEN_ACCOUNT_SIZE: u64 = 165;

/// Unix time assumed for slot zero when a block time is missing.
pub const SLOT_EPOCH_SECONDS: i64 = 1_600_000_000;

/// Assumed duration of one slot, in milliseconds.
pub const SLOT_MILLIS: u64 = 400;

/// Largest number of signatures requested in one page.
pub const PAGE_SIZE: usize = 1000;

/// A scalar found under a key of a parsed instruction's `info` object.
#[derive(Clone, Debug)]
pub enum FieldValue {
    /// The key is absent.
    Missing,
    /// A string.
    Text(String),
    /// A non-negative integer that fits in 64 bits.
    Number(u64),
    /// Any other JSON value.
    Other,
}

/// The keys of a parsed instruction's `info` object that discovery reads.
#[derive(Clone, Debug)]
pub struct InstructionInfo {
    pub account: FieldValue,
    pub new_account: FieldValue,
    pub address: FieldValue,
    pub lamports: FieldValue,
    pub space: FieldValue,
}

/// An instruction in the human-readable ("parsed") encoding.
#[derive(Clone, Debug)]
pub struct ParsedInstruction {
    /// Name (or address) of the program, such as `system` or `spl-token`.
    pub program: String,
    /// The instruction's `type`, when it is a string.
    pub kind: Option<String>,
    /// The instruction's `info`, when it is an object.
    pub info: Option<InstructionInfo>,
}

/// One instruction of a transaction.
#[derive(Clone, Debug)]
pub enum InstructionRecord {
    Parsed(ParsedInstruction),
    /// Compiled or partially decoded: never a recognised creation.
    Undecoded,
}

/// The parts of a fetched transaction that discovery reads.
#[derive(Clone, Debug)]
pub struct TransactionRecord {
    pub slot: u64,
    pub block_time: Option<i64>,
    /// The instructions, or `None` when the transaction was not delivered in
    /// the parsed JSON encoding (such transactions are skipped).
    pub instructions: Option<Vec<InstructionRecord>>,
}

/// How an account is closed, fixed at discovery.
#[derive(Clone, Copy, Debug)]
pub enum AccountType {
    System,
    SplToken,
    /// Owned by another program, whose address is kept.
    Other(Address),
}

/// The abstract form of an account type.
pub enum AccountKind {
    System,
    SplToken,
    Other(Seq<u8>),
}

impl View for AccountType {
    type V = AccountKind;

    open spec fn view(&self) -> AccountKind {
        match self {
            AccountType::System => AccountKind::System,
            AccountType::SplToken => AccountKind::SplToken,
            AccountType::Other(p) => AccountKind::Other(p@),
        }
    }
}

impl AccountType {
    /// The address of the program that owns accounts of this type.
    pub fn program_id(&self) -> (r: Address)
        ensures
            r@ == match self@ {
                AccountKind::System => crate::address::system_program_bytes(),
                AccountKind::SplToken => crate::address::token_program_bytes(),
                AccountKind::Other(p) => p,
            },
    {
        match self {
            AccountType::System => Address::system_program(),
            AccountType::SplToken => Address::token_program(),
            AccountType::Other(p) => *p,
        }
    }
}

/// An account found to have been created by one of the operator's transactions.
#[derive(Clone, Debug)]
pub struct SponsoredAccountInfo {
    pub address: Address,
    pub creation_signature: String,
    pub creation_slot: u64,
    /// Creation time, in seconds since the Unix epoch.
    pub creation_time: i64,
    /// Lamports deposited at creation, when the instruction states them.
    pub initial_balance: Option<u64>,
    pub data_size: u64,
    pub account_type: AccountType,
}

/// The abstract form of a discovered account.
pub struct CreationView {
    pub address: Seq<u8>,
    pub signature: Seq<char>,
    pub slot: u64,
    pub time: i64,
    pub balance: Option<u64>,
    pub size: u64,
    pub kind: AccountKind,
}

impl View for SponsoredAccountInfo {
    type V = CreationView;

    open spec fn view(&self) -> CreationView {
        CreationView {
            address: self.address@,
            signature: self.creation_signature@,
            slot: self.creation_slot,
            time: self.creation_time,
            balance: self.initial_balance,
            size: self.data_size,
            kind: self.account_type@,
        }
    }
}

// ---------------------------------------------------------------------------
// Dating a transaction
// ---------------------------------------------------------------------------

/// Whether a count of seconds since the epoch names a representable instant.
pub uninterp spec fn representable_time(secs: int) -> bool;

/// Relies on chrono's `DateTime::from_timestamp(secs, 0)`, which is `None`
/// exactly for seconds out of its range and otherwise round-trips through
/// `timestamp()`.
#[verifier::external_body]
fn checked_instant(secs: i64) -> (r: Option<i64>)
    ensures
        r == (if representable_time(secs as int) {
            Some(secs)
        } else {
            None::<i64>
        }),
{
    chrono::DateTime::from_timestamp(secs, 0).map(|d| d.timestamp())
}

/// The time estimated for a slot: the slot-zero epoch plus one slot duration per slot.
pub open spec fn slot_estimate(slot: u64) -> int {
    SLOT_EPOCH_SECONDS + (slot * SLOT_MILLIS) / 1000
}

/// The creation time of a transaction: its block time when that is positive
/// and representable, otherwise the estimate from its slot (the epoch when even
/// that is not representable).
pub open spec fn creation_time_spec(slot: u64, block_time: Option<i64>) -> int {
    match block_time {
        Some(t) if t > 0 && representable_time(t as int) => t as int,
        _ => if representable_time(slot_estimate(slot)) {
            slot_estimate(slot)
        } else {
            0
        },
    }
}

/// Without a usable block time the creation time is a function of the slot
/// alone: any two such transactions in the same slot get the same time,
/// whatever else differs, and nothing else (such as the current time) enters.
pub proof fn lemma_missing_block_time_is_slot_estimate(slot: u64, a: Option<i64>, b: Option<i64>)
    requires
        a is None || a->0 <= 0,
        b is None || b->0 <= 0,
    ensures
        creation_time_spec(slot, a) == creation_time_spec(slot, b),
        creation_time_spec(slot, a) == if representable_time(slot_estimate(slot)) {
            slot_estimate(slot)
        } else {
            0
        },
{
}

/// Estimates a time from a slot number alone.
pub fn estimate_time_from_slot(slot: u64) -> (r: i64)
    ensures
        r == (if representable_time(slot_estimate(slot)) {
            slot_estimate(slot)
        } else {
            0
        }),
{
    let millis: u128 = slot as u128 * SLOT_MILLIS as u128;
    let secs: u128 = millis / 1000;
    assert(secs <= 0xFFFF_FFFF_FFFF_FFFFu128 * 400 / 1000) by (nonlinear_arith)
        requires
            millis == slot * 400,
            secs == millis / 1000,
            slot <= 0xFFFF_FFFF_FFFF_FFFFu64,
    ;
    let estimate: i64 = SLOT_EPOCH_SECONDS + secs as i64;
    match checked_instant(estimate) {
        Some(t) => t,
        None => 0,
    }
}

/// The creation time of a transaction with the given slot and block time.
/// A missing block time is never replaced by the current time.
pub fn creation_time(slot: u64, block_time: Option<i64>) -> (r: i64)
    ensures
        r == creation_time_spec(slot, block_time),
{
    match block_time {
        Some(t) => {
            if t > 0 {
                match checked_instant(t) {
                    Some(v) => {
                        return v;
                    },
                    None => {},
                }
            }
            estimate_time_from_slot(slot)
        },
        None => estimate_time_from_slot(slot),
    }
}

// ---------------------------------------------------------------------------
// Recognising creation instructions
// ---------------------------------------------------------------------------

pub open spec fn text_of(f: FieldValue) -> Option<Seq<char>> {
    match f {
        FieldValue::Text(s) => Some(s@),
        _ => None,
    }
}

pub open spec fn number_or_zero(f: FieldValue) -> u64 {
    match f {
        FieldValue::Number(n) => n,
        _ => 0,
    }
}

/// The first of `account`, `newAccount`, `address` that is present.
pub open spec fn first_present(info: InstructionInfo) -> FieldValue {
    if !(info.account is Missing) {
        info.account
    } else if !(info.new_account is Missing) {
        info.new_account
    } else {
        info.address
    }
}

pub open spec fn kind_text(k: Option<String>) -> Option<Seq<char>> {
    match k {
        Some(s) => Some(s@),
        None => None,
    }
}

/// Whether an instruction type names a creation or an initialisation.
pub open spec fn names_creation(k: Seq<char>) -> bool {
    has_substring(k, "create"@) || has_substring(k, "initialize"@) || has_substring(k, "init"@)
}

/// A creation record built from its parts.
pub open spec fn creation(
    address: Seq<u8>,
    signature: Seq<char>,
    slot: u64,
    time: i64,
    balance: Option<u64>,
    size: u64,
    kind: AccountKind,
) -> CreationView {
    CreationView { address, signature, slot, time, balance, size, kind }
}

/// The account that a parsed instruction creates, if it is one of the
/// recognised creation shapes and its addresses decode.
pub open spec fn parsed_creation(
    ix: ParsedInstruction,
    signature: Seq<char>,
    slot: u64,
    time: i64,
) -> Option<CreationView> {
    let p = ix.program@;
    let k = kind_text(ix.kind);
    if p == "spl-associated-token-account"@ {
        if k is Some && (k->0 == "create"@ || k->0 == "createIdempotent"@) && ix.info is Some
            && text_of(ix.info->0.account) is Some && decoded_address(
            text_of(ix.info->0.account)->0,
        ) is Some {
            Some(
                creation(
                    decoded_address(text_of(ix.info->0.account)->0)->0,
                    signature,
                    slot,
                    time,
                    Some(ATA_RENT_EXEMPTION),
                    TOKEN_ACCOUNT_SIZE,
                    AccountKind::SplToken,
                ),
            )
        } else {
            None
        }
    } else if p == "system"@ && k is Some && (k->0 == "createAccount"@ || k->0
        == "createAccountWithSeed"@) && ix.info is Some && text_of(ix.info->0.new_account) is Some {
        match decoded_address(text_of(ix.info->0.new_account)->0) {
            Some(a) => Some(
                creation(
                    a,
                    signature,
                    slot,
                    time,
                    Some(number_or_zero(ix.info->0.lamports)),
                    number_or_zero(ix.info->0.space),
                    AccountKind::System,
                ),
            ),
            None => None,
        }
    } else if p == "spl-token"@ && k is Some && k->0 == "initializeAccount"@ && ix.info is Some
        && text_of(ix.info->0.account) is Some {
        match decoded_address(text_of(ix.info->0.account)->0) {
            Some(a) => Some(
                creation(
                    a,
                    signature,
                    slot,
                    time,
                    None,
                    TOKEN_ACCOUNT_SIZE,
                    AccountKind::SplToken,
                ),
            ),
            None => None,
        }
    } else if p != "system"@ && p != "spl-token"@ && k is Some && names_creation(k->0)
        && ix.info is Some && text_of(first_present(ix.info->0)) is Some && decoded_address(
        text_of(first_present(ix.info->0))->0,
    ) is Some && decoded_address(p) is Some {
        Some(
            creation(
                decoded_address(text_of(first_present(ix.info->0))->0)->0,
                signature,
                slot,
                time,
                Some(number_or_zero(ix.info->0.lamports)),
                number_or_zero(ix.info->0.space),
                AccountKind::Other(decoded_address(p)->0),
            ),
        )
    } else {
        None
    }
}

pub open spec fn instruction_creation(
    ix: InstructionRecord,
    signature: Seq<char>,
    slot: u64,
    time: i64,
) -> Option<CreationView> {
    match ix {
        InstructionRecord::Parsed(p) => parsed_creation(p, signature, slot, time),
        InstructionRecord::Undecoded => None,
    }
}

fn number_or_zero_of(f: &FieldValue) -> (r: u64)
    ensures
        r == number_or_zero(*f),
{
    match f {
        FieldValue::Number(n) => *n,
        _ => 0,
    }
}

fn first_present_of(info: &InstructionInfo) -> (r: &FieldValue)
    ensures
        *r == first_present(*info),
{
    match info.account {
        FieldValue::Missing => match info.new_account {
            FieldValue::Missing => &info.address,
            _ => &info.new_account,
        },
        _ => &info.account,
    }
}

fn kind_is(kind: &Option<String>, name: &str) -> (r: bool)
    ensures
        r == (kind_text(*kind) is Some && kind_text(*kind)->0 == name@),
{
    match kind {
        Some(k) => same_text(k.as_str(), name),
        None => false,
    }
}

fn info_text(f: &FieldValue) -> (r: Option<&String>)
    ensures
        match r {
            Some(s) => text_of(*f) == Some(s@),
            None => text_of(*f) is None,
        },
{
    match f {
        FieldValue::Text(s) => Some(s),
        _ => None,
    }
}

/// The account that a parsed instruction creates, if any: the associated
/// token account of a `create`/`createIdempotent`, the new account of a system
/// `createAccount`/`createAccountWithSeed`, the account of a token
/// `initializeAccount`, or, for any other program, the first of
/// `account`/`newAccount`/`address` of an instruction whose type mentions
/// creation or initialisation. Addresses that do not decode yield nothing.
pub fn parse_instruction_for_creation(
    ix: &ParsedInstruction,
    signature: &String,
    slot: u64,
    time: i64,
) -> (r: Option<SponsoredAccountInfo>)
    ensures
        match r {
            Some(info) => parsed_creation(*ix, signature@, slot, time) == Some(info@),
            None => parsed_creation(*ix, signature@, slot, time) is None,
        },
{
    let program = ix.program.as_str();
    if same_text(program, "spl-associated-token-account") {
        if kind_is(&ix.kind, "create") || kind_is(&ix.kind, "createIdempotent") {
            if let Some(info) = &ix.info {
                if let Some(text) = info_text(&info.account) {
                    if let Some(a) = Address::parse(text.as_str()) {
                        return Some(
                            SponsoredAccountInfo {
                                address: a,
                                creation_signature: signature.clone(),
                                creation_slot: slot,
                                creation_time: time,
                                initial_balance: Some(ATA_RENT_EXEMPTION),
                                data_size: TOKEN_ACCOUNT_SIZE,
                                account_type: AccountType::SplToken,
                            },
                        );
                    }
                }
            }
        }
        return None;
    }
    let is_system = same_text(program, "system");
    if is_system && (kind_is(&ix.kind, "createAccount") || kind_is(
        &ix.kind,
        "createAccountWithSeed",
    )) {
        if let Some(info) = &ix.info {
            if let Some(text) = info_text(&info.new_account) {
                return match Address::parse(text.as_str()) {
                    Some(a) => Some(
                        SponsoredAccountInfo {
                            address: a,
                            creation_signature: signature.clone(),
                            creation_slot: slot,
                            creation_time: time,
                            initial_balance: Some(number_or_zero_of(&info.lamports)),
                            data_size: number_or_zero_of(&info.space),
                            account_type: AccountType::System,
                        },
                    ),
                    None => None,
                };
            }
        }
    }
    let is_token = same_text(program, "spl-token");
    if is_token && kind_is(&ix.kind, "initializeAccount") {
        if let Some(info) = &ix.info {
            if let Some(text) = info_text(&info.account) {
                return match Address::parse(text.as_str()) {
                    Some(a) => Some(
                        SponsoredAccountInfo {
                            address: a,
                            creation_signature: signature.clone(),
                            creation_slot: slot,
                            creation_time: time,
                            initial_balance: None,
                            data_size: TOKEN_ACCOUNT_SIZE,
                            account_type: AccountType::SplToken,
                        },
                    ),
                    None => None,
                };
            }
        }
    }
    if !is_system && !is_token {
        if let Some(k) = &ix.kind {
            let kind = k.as_str();
            if contains_text(kind, "create") || contains_text(kind, "initialize") || contains_text(
                kind,
                "init",
            ) {
                if let Some(info) = &ix.info {
                    if let Some(text) = info_text(first_present_of(info)) {
                        if let Some(a) = Address::parse(text.as_str()) {
                            if let Some(program_id) = Address::parse(program) {
                                return Some(
                                    SponsoredAccountInfo {
                                        address: a,
                                        creation_signature: signature.clone(),
                                        creation_slot: slot,
                                        creation_time: time,
                                        initial_balance: Some(number_or_zero_of(&info.lamports)),
                                        data_size: number_or_zero_of(&info.space),
                                        account_type: AccountType::Other(program_id),
                                    },
                                );
                            }
                        }
                    }
                }
            }
        }
    }
    None
}

// ---------------------------------------------------------------------------
// Transactions
// ---------------------------------------------------------------------------

/// The creations found in a sequence of instructions, in order.
pub open spec fn creations_in(
    ixs: Seq<InstructionRecord>,
    signature: Seq<char>,
    slot: u64,
    time: i64,
) -> Seq<CreationView>
    decreases ixs.len(),
{
    if ixs.len() == 0 {
        Seq::empty()
    } else {
        let prev = creations_in(ixs.drop_last(), signature, slot, time);
        match instruction_creation(ixs.last(), signature, slot, time) {
            Some(c) => prev.push(c),
            None => prev,
        }
    }
}

/// The creations found in a transaction: none when it was not delivered in
/// the parsed encoding, otherwise those of its instructions, dated by
/// `creation_time_spec`.
pub open spec fn transaction_creations(tx: TransactionRecord, signature: Seq<char>) -> Seq<
    CreationView,
> {
    match tx.instructions {
        Some(ixs) => creations_in(
            ixs@,
            signature,
            tx.slot,
            creation_time_spec(tx.slot, tx.block_time) as i64,
        ),
        None => Seq::empty(),
    }
}

pub open spec fn views_of(s: Seq<SponsoredAccountInfo>) -> Seq<CreationView> {
    s.map_values(|i: SponsoredAccountInfo| i@)
}

/// The accounts created by a transaction, in instruction order.
pub fn parse_transaction_for_creations(tx: &TransactionRecord, signature: &String) -> (r: Vec<
    SponsoredAccountInfo,
>)
    ensures
        views_of(r@) == transaction_creations(*tx, signature@),
{
    let mut out: Vec<SponsoredAccountInfo> = Vec::new();
    let time = creation_time(tx.slot, tx.block_time);
    match &tx.instructions {
        None => {
            assert(views_of(out@) =~= Seq::<CreationView>::empty());
        },
        Some(ixs) => {
            let mut i: usize = 0;
            while i < ixs.len()
                invariant
                    0 <= i <= ixs@.len(),
                    time == creation_time_spec(tx.slot, tx.block_time),
                    views_of(out@) == creations_in(ixs@.subrange(0, i as int), signature@, tx.slot, time),
                decreases ixs@.len() - i,
            {
                assert(ixs@.subrange(0, i + 1).drop_last() =~= ixs@.subrange(0, i as int));
                match &ixs[i] {
                    InstructionRecord::Parsed(p) => {
                        match parse_instruction_for_creation(p, signature, tx.slot, time) {
                            Some(c) => {
                                out.push(c);
                                assert(views_of(out@) =~= creations_in(
                                    ixs@.subrange(0, i as int),
                                    signature@,
                                    tx.slot,
                                    time,
                                ).push(c@));
                            },
                            None => {},
                        }
                    },
                    InstructionRecord::Undecoded => {},
                }
                i = i + 1;
            }
            assert(ixs@.subrange(0, ixs@.len() as int) =~= ixs@);
        },
    }
    out
}

// ---------------------------------------------------------------------------
// Recording each address once
// ---------------------------------------------------------------------------

/// Whether some record of `s` has address `a`.
pub open spec fn has_address(s: Seq<CreationView>, a: Seq<u8>) -> bool {
    exists|i: int| 0 <= i < s.len() && #[trigger] s[i].address == a
}

/// Whether no two records of `s` share an address.
pub open spec fn distinct_addresses(s: Seq<CreationView>) -> bool {
    forall|i: int, j: int|
        0 <= i < s.len() && 0 <= j < s.len() && i != j ==> #[trigger] s[i].address
            != #[trigger] s[j].address
}

/// `found` followed by each record of `new` whose address was not seen
/// before it (first discovery wins).
pub open spec fn extend_unseen(found: Seq<CreationView>, new: Seq<CreationView>) -> Seq<
    CreationView,
>
    decreases new.len(),
{
    if new.len() == 0 {
        found
    } else {
        let prev = extend_unseen(found, new.drop_last());
        if has_address(prev, new.last().address) {
            prev
        } else {
            prev.push(new.last())
        }
    }
}

/// Appends each of `new` whose address is not yet in `found`.
pub fn absorb_unseen(found: &mut Vec<SponsoredAccountInfo>, new: Vec<SponsoredAccountInfo>)
    ensures
        views_of(final(found)@) == extend_unseen(views_of(old(found)@), views_of(new@)),
{
    let ghost start = views_of(found@);
    let mut i: usize = 0;
    while i < new.len()
        invariant
            0 <= i <= new@.len(),
            views_of(found@) == extend_unseen(start, views_of(new@.subrange(0, i as int))),
        decreases new@.len() - i,
    {
        let ghost prev = views_of(found@);
        assert(views_of(new@.subrange(0, i + 1)).drop_last() =~= views_of(
            new@.subrange(0, i as int),
        ));
        assert(views_of(new@.subrange(0, i + 1)).last() == new@[i as int]@);
        let mut seen = false;
        let mut j: usize = 0;
        while j < found.len()
            invariant
                0 <= j <= found@.len(),
                i < new@.len(),
                views_of(found@) == prev,
                seen == (exists|k: int| 0 <= k < j && #[trigger] prev[k].address == new@[i as int]@.address),
            decreases found@.len() - j,
        {
            if found[j].address == new[i].address {
                seen = true;
            }
            assert(prev[j as int].address == found@[j as int]@.address);
            j = j + 1;
        }
        if !seen {
            found.push(new[i].clone_info());
            assert(views_of(found@) =~= prev.push(new@[i as int]@));
        }
        i = i + 1;
    }
    assert(new@.subrange(0, new@.len() as int) =~= new@);
}

impl SponsoredAccountInfo {
    /// A copy of the record.
    pub fn clone_info(&self) -> (r: SponsoredAccountInfo)
        ensures
            r@ == self@,
    {
        SponsoredAccountInfo {
            address: self.address,
            creation_signature: self.creation_signature.clone(),
            creation_slot: self.creation_slot,
            creation_time: self.creation_time,
            initial_balance: self.initial_balance,
            data_size: self.data_size,
            account_type: self.account_type,
        }
    }
}

/// The addresses seen after extending are those seen before and those of the new records.
pub proof fn lemma_extend_unseen_addresses(found: Seq<CreationView>, new: Seq<CreationView>, a: Seq<u8>)
    ensures
        has_address(extend_unseen(found, new), a) <==> (has_address(found, a) || has_address(new, a)),
    decreases new.len(),
{
    if new.len() > 0 {
        let prev = extend_unseen(found, new.drop_last());
        lemma_extend_unseen_addresses(found, new.drop_last(), a);
        if has_address(new, a) {
            let i = choose|i: int| 0 <= i < new.len() && #[trigger] new[i].address == a;
            if i < new.len() - 1 {
                assert(new.drop_last()[i].address == a);
            } else {
                lemma_extend_unseen_addresses(found, new.drop_last(), new.last().address);
                if !has_address(prev, a) {
                    assert(prev.push(new.last())[prev.len() as int].address == a);
                }
            }
        }
        if has_address(new.drop_last(), a) {
            let i = choose|i: int| 0 <= i < new.len() - 1 && #[trigger] new.drop_last()[i].address == a;
            assert(new[i].address == a);
        }
        if !has_address(prev, new.last().address) && has_address(prev, a) {
            let i = choose|i: int| 0 <= i < prev.len() && #[trigger] prev[i].address == a;
            assert(prev.push(new.last())[i].address == a);
        }
        if !has_address(prev, new.last().address) && has_address(prev.push(new.last()), a) {
            let i = choose|i: int| 0 <= i < prev.len() + 1 && #[trigger] prev.push(new.last())[i].address == a;
            if i < prev.len() {
                assert(prev[i].address == a);
            } else {
                assert(new[new.len() - 1].address == a);
            }
        }
    }
}

/// Extending never records an address twice.
pub proof fn lemma_extend_unseen_distinct(found: Seq<CreationView>, new: Seq<CreationView>)
    requires
        distinct_addresses(found),
    ensures
        distinct_addresses(extend_unseen(found, new)),
    decreases new.len(),
{
    if new.len() > 0 {
        let prev = extend_unseen(found, new.drop_last());
        lemma_extend_unseen_distinct(found, new.drop_last());
        if !has_address(prev, new.last().address) {
            let ext = prev.push(new.last());
            assert forall|i: int, j: int|
                0 <= i < ext.len() && 0 <= j < ext.len() && i != j implies #[trigger] ext[i].address
                != #[trigger] ext[j].address by {
                if i == prev.len() as int {
                    assert(prev[j].address != new.last().address);
                } else if j == prev.len() as int {
                    assert(prev[i].address != new.last().address);
                }
            }
        }
    }
}

/// Extending by records whose addresses were all seen changes nothing.
pub proof fn lemma_extend_seen_unchanged(found: Seq<CreationView>, new: Seq<CreationView>)
    requires
        forall|i: int| 0 <= i < new.len() ==> has_address(found, #[trigger] new[i].address),
    ensures
        extend_unseen(found, new) == found,
    decreases new.len(),
{
    if new.len() > 0 {
        assert forall|i: int| 0 <= i < new.drop_last().len() implies has_address(
            found,
            #[trigger] new.drop_last()[i].address,
        ) by {
            assert(new.drop_last()[i] == new[i]);
        }
        lemma_extend_seen_unchanged(found, new.drop_last());
        assert(has_address(found, new[new.len() - 1].address));
    }
}

/// Scanning the same records a second time yields the same address set: the
/// second pass records nothing new, the result holds no address twice, and
/// it omits no address that either pass saw.
pub proof fn lemma_rescan_is_idempotent(found: Seq<CreationView>, new: Seq<CreationView>)
    requires
        distinct_addresses(found),
    ensures
        extend_unseen(extend_unseen(found, new), new) == extend_unseen(found, new),
        distinct_addresses(extend_unseen(found, new)),
        forall|a: Seq<u8>|
            has_address(extend_unseen(found, new), a) <==> (has_address(found, a)
                || has_address(new, a)),
{
    let r = extend_unseen(found, new);
    assert forall|i: int| 0 <= i < new.len() implies has_address(r, #[trigger] new[i].address) by {
        lemma_extend_unseen_addresses(found, new, new[i].address);
    }
    lemma_extend_seen_unchanged(r, new);
    lemma_extend_unseen_distinct(found, new);
    assert forall|a: Seq<u8>|
        has_address(extend_unseen(found, new), a) <==> (has_address(found, a) || has_address(
            new,
            a,
        )) by {
        lemma_extend_unseen_addresses(found, new, a);
    }
}

/// The view of a fetched transaction together with its signature.
pub open spec fn fetched_view(t: (String, TransactionRecord)) -> (Seq<char>, TransactionRecord) {
    (t.0@, t.1)
}

/// What recording the transactions `txs`, in order, adds to `found`.
pub open spec fn scan_from(found: Seq<CreationView>, txs: Seq<(Seq<char>, TransactionRecord)>) -> Seq<
    CreationView,
>
    decreases txs.len(),
{
    if txs.len() == 0 {
        found
    } else {
        extend_unseen(scan_from(found, txs.drop_last()), transaction_creations(txs.last().1, txs.last().0))
    }
}

/// Whether some transaction of `txs` creates an account at address `a`.
pub open spec fn created_in(txs: Seq<(Seq<char>, TransactionRecord)>, a: Seq<u8>) -> bool {
    exists|i: int| 0 <= i < txs.len() && has_address(#[trigger] transaction_creations(txs[i].1, txs[i].0), a)
}

/// Recording transactions page after page is recording them all at once.
pub proof fn lemma_scan_from_concat(
    found: Seq<CreationView>,
    first: Seq<(Seq<char>, TransactionRecord)>,
    second: Seq<(Seq<char>, TransactionRecord)>,
)
    ensures
        scan_from(scan_from(found, first), second) == scan_from(found, first + second),
    decreases second.len(),
{
    if second.len() == 0 {
        assert(first + second =~= first);
    } else {
        lemma_scan_from_concat(found, first, second.drop_last());
        assert((first + second).drop_last() =~= first + second.drop_last());
        assert((first + second).last() == second.last());
    }
}

proof fn lemma_scan_from_addresses(
    found: Seq<CreationView>,
    txs: Seq<(Seq<char>, TransactionRecord)>,
    a: Seq<u8>,
)
    ensures
        has_address(scan_from(found, txs), a) <==> (has_address(found, a) || created_in(txs, a)),
    decreases txs.len(),
{
    if txs.len() > 0 {
        let prev = txs.drop_last();
        lemma_scan_from_addresses(found, prev, a);
        let last = transaction_creations(txs.last().1, txs.last().0);
        lemma_extend_unseen_addresses(scan_from(found, prev), last, a);
        if created_in(txs, a) {
            let i = choose|i: int|
                0 <= i < txs.len() && has_address(#[trigger] transaction_creations(txs[i].1, txs[i].0), a);
            if i < txs.len() - 1 {
                assert(prev[i] == txs[i]);
            }
        }
        if created_in(prev, a) {
            let i = choose|i: int|
                0 <= i < prev.len() && has_address(#[trigger] transaction_creations(prev[i].1, prev[i].0), a);
            assert(prev[i] == txs[i]);
        }
        if has_address(last, a) {
            assert(txs[txs.len() - 1] == txs.last());
        }
    }
}

proof fn lemma_scan_from_distinct(found: Seq<CreationView>, txs: Seq<(Seq<char>, TransactionRecord)>)
    requires
        distinct_addresses(found),
    ensures
        distinct_addresses(scan_from(found, txs)),
    decreases txs.len(),
{
    if txs.len() > 0 {
        lemma_scan_from_distinct(found, txs.drop_last());
        lemma_extend_unseen_distinct(
            scan_from(found, txs.drop_last()),
            transaction_creations(txs.last().1, txs.last().0),
        );
    }
}

proof fn lemma_scan_from_seen_unchanged(found: Seq<CreationView>, txs: Seq<(Seq<char>, TransactionRecord)>)
    requires
        forall|a: Seq<u8>| created_in(txs, a) ==> has_address(found, a),
    ensures
        scan_from(found, txs) == found,
    decreases txs.len(),
{
    if txs.len() > 0 {
        let prev = txs.drop_last();
        assert forall|a: Seq<u8>| created_in(prev, a) implies has_address(found, a) by {
            let i = choose|i: int|
                0 <= i < prev.len() && has_address(#[trigger] transaction_creations(prev[i].1, prev[i].0), a);
            assert(prev[i] == txs[i]);
            assert(created_in(txs, a));
        }
        lemma_scan_from_seen_unchanged(found, prev);
        let last = transaction_creations(txs.last().1, txs.last().0);
        assert forall|k: int| 0 <= k < last.len() implies has_address(found, #[trigger] last[k].address) by {
            assert(has_address(last, last[k].address));
            assert(txs[txs.len() - 1] == txs.last());
            assert(created_in(txs, last[k].address));
        }
        lemma_extend_seen_unchanged(found, last);
    }
}

/// A whole scan over a signature range, from nothing: it records every
/// address that some transaction of the range creates and no other, never
/// twice, and scanning the same range again changes nothing, so two scans of
/// the same range yield the same address set.
pub proof fn lemma_whole_scan(txs: Seq<(Seq<char>, TransactionRecord)>)
    ensures
        distinct_addresses(scan_from(Seq::empty(), txs)),
        forall|a: Seq<u8>| has_address(scan_from(Seq::empty(), txs), a) <==> created_in(txs, a),
        scan_from(scan_from(Seq::empty(), txs), txs) == scan_from(Seq::empty(), txs),
{
    let empty = Seq::<CreationView>::empty();
    lemma_scan_from_distinct(empty, txs);
    assert forall|a: Seq<u8>| has_address(scan_from(empty, txs), a) <==> created_in(txs, a) by {
        lemma_scan_from_addresses(empty, txs, a);
    }
    lemma_scan_from_seen_unchanged(scan_from(empty, txs), txs);
}

// ---------------------------------------------------------------------------
// Paging through the signature history
// ---------------------------------------------------------------------------

/// One entry of a page of the operator's signatures, newest first.
#[derive(Clone, Debug)]
pub struct SignatureEntry {
    pub signature: String,
    /// Whether the transaction failed on chain.
    pub failed: bool,
}

/// The next page of signatures to ask for.
#[derive(Clone, Debug)]
pub struct PageRequest {
    /// Only signatures older than this one.
    pub before: Option<String>,
    /// Only signatures newer than this one.
    pub until: Option<String>,
    pub limit: usize,
}

/// The progress of one discovery run over the operator's signature history:
/// pages are requested backward from the newest signature, each non-failed
/// transaction is parsed, and each address is recorded once.
pub struct DiscoveryScan {
    /// Bound on the number of signatures fetched (not on accounts found).
    pub max_signatures: usize,
    pub fetched: usize,
    /// The oldest signature seen so far: the cursor for the next page.
    pub before: Option<String>,
    /// The checkpoint of an incremental scan.
    pub until: Option<String>,
    pub finished: bool,
    pub found: Vec<SponsoredAccountInfo>,
}

pub open spec fn text_view(t: Option<String>) -> Option<Seq<char>> {
    match t {
        Some(s) => Some(s@),
        None => None,
    }
}

fn clone_text(t: &Option<String>) -> (r: Option<String>)
    ensures
        text_view(r) == text_view(*t),
{
    match t {
        Some(s) => Some(s.clone()),
        None => None,
    }
}

/// The signatures of a page that are worth fetching: those not failed, in order.
pub open spec fn live_signatures(page: Seq<SignatureEntry>) -> Seq<Seq<char>>
    decreases page.len(),
{
    if page.len() == 0 {
        Seq::empty()
    } else {
        let prev = live_signatures(page.drop_last());
        if page.last().failed {
            prev
        } else {
            prev.push(page.last().signature@)
        }
    }
}

impl DiscoveryScan {
    pub open spec fn wf(&self) -> bool {
        &&& self.fetched <= self.max_signatures
        &&& distinct_addresses(views_of(self.found@))
    }

    /// A full scan from the newest signature back, fetching at most
    /// `max_signatures` signatures.
    pub fn from_signatures(max_signatures: usize) -> (r: DiscoveryScan)
        ensures
            r.wf(),
            r.max_signatures == max_signatures,
            r.fetched == 0,
            r.before is None,
            r.until is None,
            !r.finished,
            r.found@.len() == 0,
    {
        DiscoveryScan {
            max_signatures,
            fetched: 0,
            before: None,
            until: None,
            finished: false,
            found: Vec::new(),
        }
    }

    /// A scan bounded to transactions newer than `since_signature`.
    pub fn incremental(since_signature: String, max_signatures: usize) -> (r: DiscoveryScan)
        ensures
            r.wf(),
            r.max_signatures == max_signatures,
            r.fetched == 0,
            r.before is None,
            text_view(r.until) == Some(since_signature@),
            !r.finished,
            r.found@.len() == 0,
    {
        DiscoveryScan {
            max_signatures,
            fetched: 0,
            before: None,
            until: Some(since_signature),
            finished: false,
            found: Vec::new(),
        }
    }

    /// The next page to request, or `None` once the scan has ended (an empty
    /// or short page was seen, or the budget of signatures is spent). A page
    /// asks for at most `PAGE_SIZE` signatures and never more than the budget left.
    pub fn next_page(&self) -> (r: Option<PageRequest>)
        requires
            self.wf(),
        ensures
            r is None <==> (self.finished || self.fetched >= self.max_signatures),
            r matches Some(p) ==> {
                &&& text_view(p.before) == text_view(self.before)
                &&& text_view(p.until) == text_view(self.until)
                &&& p.limit == if PAGE_SIZE <= self.max_signatures - self.fetched {
                    PAGE_SIZE as int
                } else {
                    self.max_signatures - self.fetched
                }
            },
    {
        if self.finished || self.fetched >= self.max_signatures {
            return None;
        }
        let left = self.max_signatures - self.fetched;
        let limit = if PAGE_SIZE <= left {
            PAGE_SIZE
        } else {
            left
        };
        Some(PageRequest { before: clone_text(&self.before), until: clone_text(&self.until), limit })
    }

    /// The signatures of a page whose transactions are to be fetched.
    pub fn signatures_to_fetch(page: &Vec<SignatureEntry>) -> (r: Vec<String>)
        ensures
            r@.map_values(|s: String| s@) == live_signatures(page@),
    {
        let mut out: Vec<String> = Vec::new();
        let mut i: usize = 0;
        while i < page.len()
            invariant
                0 <= i <= page@.len(),
                out@.map_values(|s: String| s@) == live_signatures(page@.subrange(0, i as int)),
            decreases page@.len() - i,
        {
            assert(page@.subrange(0, i + 1).drop_last() =~= page@.subrange(0, i as int));
            if !page[i].failed {
                out.push(page[i].signature.clone());
                assert(out@.map_values(|s: String| s@) =~= live_signatures(
                    page@.subrange(0, i as int),
                ).push(page@[i as int].signature@));
            }
            i = i + 1;
        }
        assert(page@.subrange(0, page@.len() as int) =~= page@);
        out
    }

    /// Records the accounts created by a fetched transaction, skipping
    /// addresses already recorded in this run.
    pub fn record_transaction(&mut self, signature: &String, tx: &TransactionRecord)
        requires
            old(self).wf(),
        ensures
            final(self).wf(),
            views_of(final(self).found@) == extend_unseen(
                views_of(old(self).found@),
                transaction_creations(*tx, signature@),
            ),
            final(self).max_signatures == old(self).max_signatures,
            final(self).fetched == old(self).fetched,
            text_view(final(self).before) == text_view(old(self).before),
            text_view(final(self).until) == text_view(old(self).until),
            final(self).finished == old(self).finished,
    {
        let creations = parse_transaction_for_creations(tx, signature);
        proof {
            lemma_extend_unseen_distinct(views_of(self.found@), views_of(creations@));
        }
        absorb_unseen(&mut self.found, creations);
    }

    /// Records the fetched transactions of a page, in order.
    pub fn record_transactions(&mut self, fetched: &Vec<(String, TransactionRecord)>)
        requires
            old(self).wf(),
        ensures
            final(self).wf(),
            views_of(final(self).found@) == scan_from(
                views_of(old(self).found@),
                fetched@.map_values(|t: (String, TransactionRecord)| fetched_view(t)),
            ),
            final(self).max_signatures == old(self).max_signatures,
            final(self).fetched == old(self).fetched,
            text_view(final(self).before) == text_view(old(self).before),
            text_view(final(self).until) == text_view(old(self).until),
            final(self).finished == old(self).finished,
    {
        let ghost start = views_of(self.found@);
        let ghost all = fetched@.map_values(|t: (String, TransactionRecord)| fetched_view(t));
        let mut i: usize = 0;
        while i < fetched.len()
            invariant
                0 <= i <= fetched@.len(),
                self.wf(),
                all == fetched@.map_values(|t: (String, TransactionRecord)| fetched_view(t)),
                views_of(self.found@) == scan_from(start, all.subrange(0, i as int)),
                self.max_signatures == old(self).max_signatures,
                self.fetched == old(self).fetched,
                text_view(self.before) == text_view(old(self).before),
                text_view(self.until) == text_view(old(self).until),
                self.finished == old(self).finished,
            decreases fetched@.len() - i,
        {
            assert(all.subrange(0, i + 1).drop_last() =~= all.subrange(0, i as int));
            assert(all.subrange(0, i + 1).last() == fetched_view(fetched@[i as int]));
            self.record_transaction(&fetched[i].0, &fetched[i].1);
            i = i + 1;
        }
        assert(all.subrange(0, fetched@.len() as int) =~= all);
    }

    /// Closes a page that asked for `limit` signatures: counts its
    /// signatures against the budget, moves the cursor to its oldest
    /// signature, and ends the scan on an empty or short page.
    pub fn finish_page(&mut self, page: &Vec<SignatureEntry>, limit: usize)
        requires
            old(self).wf(),
        ensures
            final(self).wf(),
            final(self).max_signatures == old(self).max_signatures,
            views_of(final(self).found@) == views_of(old(self).found@),
            text_view(final(self).until) == text_view(old(self).until),
            page@.len() == 0 ==> {
                &&& final(self).finished
                &&& final(self).fetched == old(self).fetched
                &&& text_view(final(self).before) == text_view(old(self).before)
            },
            page@.len() > 0 ==> {
                &&& final(self).finished == (old(self).finished || page@.len() < limit)
                &&& final(self).fetched == if page@.len() <= old(self).max_signatures
                    - old(self).fetched {
                    old(self).fetched + page@.len()
                } else {
                    old(self).max_signatures as int
                }
                &&& text_view(final(self).before) == Some(page@.last().signature@)
            },
    {
        let n = page.len();
        if n == 0 {
            self.finished = true;
            return;
        }
        if n <= self.max_signatures - self.fetched {
            self.fetched = self.fetched + n;
        } else {
            self.fetched = self.max_signatures;
        }
        self.before = Some(page[n - 1].signature.clone());
        if n < limit {
            self.finished = true;
        }
    }
}

} // verus!
