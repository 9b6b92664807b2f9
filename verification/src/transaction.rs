use base64::Engine;
use vstd::prelude::*;
use vstd::string::StrSliceExecFns;

verus! {

/// Most fractional digits the sink's decimal column type accepts.
pub const MAX_BQ_DECIMALS: usize = 9;

// --- Raw, source-shaped values, reduced to plain data ---

/// One token-mint balance attached to an account of a raw transaction.
pub struct RawTokenBalance {
    /// Index into the transaction's own account list.
    pub account_index: u8,
    pub mint: String,
    pub ui_amount_string: String,
}

/// Execution metadata the ledger records beside a transaction.
pub struct RawMeta {
    pub succeeded: bool,
    pub error: Option<String>,
    pub fee: u64,
    pub pre_balances: Vec<u64>,
    pub post_balances: Vec<u64>,
    pub pre_token_balances: Option<Vec<RawTokenBalance>>,
    pub post_token_balances: Option<Vec<RawTokenBalance>>,
    pub log_messages: Option<Vec<String>>,
}

/// One instruction of a decoded transaction; its indices refer to the
/// transaction's own account list.
pub struct RawInstruction {
    pub program_id_index: u8,
    pub accounts: Vec<u8>,
    pub data: Vec<u8>,
}

/// A decoded raw transaction.
pub struct RawDecodedTransaction {
    pub signatures: Vec<String>,
    pub account_keys: Vec<String>,
    pub instructions: Vec<RawInstruction>,
}

// --- Decimal truncation ---

/// Index of the first `'.'` at or after position `i`, or the length of the
/// sequence if there is none.
pub open spec fn dot_index_from(s: Seq<char>, i: int) -> int
    decreases s.len() - i,
{
    if i < 0 || i >= s.len() {
        s.len() as int
    } else if s[i] == '.' {
        i
    } else {
        dot_index_from(s, i + 1)
    }
}

proof fn lemma_dot_index_from_found(s: Seq<char>, i: int, j: int)
    requires
        0 <= i <= j <= s.len(),
        forall|k: int| i <= k < j ==> s[k] != '.',
        j == s.len() || s[j] == '.',
    ensures
        dot_index_from(s, i) == j,
    decreases j - i,
{
    if i < j {
        lemma_dot_index_from_found(s, i + 1, j);
    }
}

/// The truncation rule for token amounts: a string with more than the
/// accepted number of digits after its first decimal point is cut after the
/// ninth such digit; anything else passes through unchanged.
pub open spec fn spec_trim_decimals(s: Seq<char>) -> Seq<char> {
    let p = dot_index_from(s, 0);
    if p == s.len() {
        s
    } else {
        let decimals = dot_index_from(s, p + 1) - (p + 1);
        if decimals <= MAX_BQ_DECIMALS {
            s
        } else {
            s.take(p + 1 + MAX_BQ_DECIMALS)
        }
    }
}

/// Trim a decimal amount string to the greatest fractional precision the
/// sink's numeric type allows, truncating (never rounding).
pub fn trim_decimals(amount: &String) -> (r: &str)
    ensures
        r@ == spec_trim_decimals(amount@),
{
    let s = amount.as_str();
    let n = s.unicode_len();
    let mut p: usize = 0;
    while p < n && s.get_char(p) != '.'
        invariant
            p <= n,
            n == s@.len(),
            forall|k: int| 0 <= k < p ==> s@[k] != '.',
        decreases n - p,
    {
        p = p + 1;
    }
    proof {
        lemma_dot_index_from_found(s@, 0, p as int);
    }
    if p == n {
        return s;
    }
    let mut q: usize = p + 1;
    while q < n && s.get_char(q) != '.'
        invariant
            p + 1 <= q <= n,
            n == s@.len(),
            forall|k: int| p + 1 <= k < q ==> s@[k] != '.',
        decreases n - q,
    {
        q = q + 1;
    }
    proof {
        lemma_dot_index_from_found(s@, p + 1, q as int);
    }
    let decimals = q - (p + 1);
    if decimals <= MAX_BQ_DECIMALS {
        s
    } else {
        let r = s.substring_char(0, p + 1 + MAX_BQ_DECIMALS);
        proof {
            assert(r@ =~= s@.take(p + 1 + MAX_BQ_DECIMALS));
        }
        r
    }
}

// --- Base64 encoding of instruction payloads ---

/// What the standard base64 alphabet encodes a given byte sequence to.
pub uninterp spec fn base64_of(bytes: Seq<u8>) -> Seq<char>;

/// Relies on the base64 crate's standard engine `encode`: the encoding is a
/// function of the input bytes alone.
#[verifier::external_body]
fn base64_encode(data: &Vec<u8>) -> (r: String)
    ensures
        r@ == base64_of(data@),
{
    base64::engine::general_purpose::STANDARD.encode(data.as_slice())
}

// --- Sink-shaped records ---

/// A token balance as the warehouse row stores it.
pub struct TokenBalance {
    pub mint: String,
    pub amount: String,
}

/// An account of a transaction row, with its native and token balances.
pub struct Account {
    pub address: String,
    pub pre_sol_balance: u64,
    pub post_sol_balance: u64,
    pub pre_token_balances: Vec<TokenBalance>,
    pub post_token_balances: Vec<TokenBalance>,
}

/// An instruction of a transaction row, with indices resolved to addresses
/// and the payload base64-encoded.
pub struct Instruction {
    pub program_id: String,
    pub accounts: Vec<String>,
    pub data: String,
}

/// A per-transaction warehouse record.
pub struct Transaction {
    pub block_timestamp: Option<i64>,
    pub slot: u64,
    pub transaction_id: String,
    pub is_successful: bool,
    pub error: String,
    pub fee: u64,
    pub accounts: Vec<Account>,
    pub instructions: Vec<Instruction>,
    pub log_messages: Vec<String>,
}

// --- The transform's mathematical statement ---

/// Ghost image of one emitted token balance.
pub struct TokenImage {
    pub mint: Seq<char>,
    pub amount: Seq<char>,
}

pub open spec fn token_view(t: TokenBalance) -> TokenImage {
    TokenImage { mint: t.mint@, amount: t.amount@ }
}

pub open spec fn token_views(ts: Seq<TokenBalance>) -> Seq<TokenImage> {
    ts.map_values(|t: TokenBalance| token_view(t))
}

/// The token balances a raw balance list contributes to account `j`: the
/// entries indexed to `j`, in list order, their amounts trimmed.
pub open spec fn tokens_for(balances: Seq<RawTokenBalance>, j: int) -> Seq<TokenImage>
    decreases balances.len(),
{
    if balances.len() == 0 {
        Seq::empty()
    } else {
        let rest = tokens_for(balances.drop_last(), j);
        let b = balances.last();
        if b.account_index as int == j {
            rest.push(TokenImage { mint: b.mint@, amount: spec_trim_decimals(b.ui_amount_string@) })
        } else {
            rest
        }
    }
}

pub open spec fn opt_balances(o: Option<Vec<RawTokenBalance>>) -> Seq<RawTokenBalance> {
    match o {
        Some(v) => v@,
        None => Seq::empty(),
    }
}

/// Account `i` of the emitted row against the raw transaction: the address
/// comes from the account list, the native balances from the metadata, and
/// the token balances are the metadata's entries for this index.
pub open spec fn account_matches(
    a: Account,
    st: RawDecodedTransaction,
    meta: RawMeta,
    i: int,
) -> bool {
    &&& a.address@ == st.account_keys@[i]@
    &&& a.pre_sol_balance == meta.pre_balances@[i]
    &&& a.post_sol_balance == meta.post_balances@[i]
    &&& token_views(a.pre_token_balances@) == tokens_for(opt_balances(meta.pre_token_balances), i)
    &&& token_views(a.post_token_balances@) == tokens_for(opt_balances(meta.post_token_balances), i)
}

/// An emitted instruction against its raw form: indices resolved against the
/// transaction's own account list, payload base64-encoded.
pub open spec fn instruction_matches(
    out: Instruction,
    raw: RawInstruction,
    keys: Seq<String>,
) -> bool {
    &&& out.program_id@ == keys[raw.program_id_index as int]@
    &&& out.accounts@.len() == raw.accounts@.len()
    &&& (forall|k: int|
        0 <= k < raw.accounts@.len() ==> #[trigger] out.accounts@[k]@ == keys[raw.accounts@[k] as int]@)
    &&& out.data@ == base64_of(raw.data@)
}

pub open spec fn instruction_indices_ok(ins: RawInstruction, n: int) -> bool {
    &&& (ins.program_id_index as int) < n
    &&& (forall|k: int|
        #![trigger ins.accounts@[k]]
        0 <= k < ins.accounts@.len() ==> (ins.accounts@[k] as int) < n)
}

/// The conditions under which the transform is defined: at least one
/// signature, metadata whose error text is carried exactly when execution
/// failed (and is then nonempty), balances covering every account, and
/// every index resolving within the transaction's own account list.
pub open spec fn raw_transaction_well_formed(st: RawDecodedTransaction, meta: RawMeta) -> bool {
    &&& st.signatures@.len() >= 1
    &&& (meta.succeeded <==> meta.error is None)
    &&& (match meta.error {
        Some(e) => e@.len() > 0,
        None => true,
    })
    &&& meta.pre_balances@.len() >= st.account_keys@.len()
    &&& meta.post_balances@.len() >= st.account_keys@.len()
    &&& (forall|i: int|
        0 <= i < st.instructions@.len() ==> instruction_indices_ok(
            #[trigger] st.instructions@[i],
            st.account_keys@.len() as int,
        ))
    &&& (forall|i: int|
        #![trigger opt_balances(meta.pre_token_balances)[i]]
        0 <= i < opt_balances(meta.pre_token_balances).len() ==> (opt_balances(
            meta.pre_token_balances,
        )[i].account_index as int) < st.account_keys@.len())
    &&& (forall|i: int|
        #![trigger opt_balances(meta.post_token_balances)[i]]
        0 <= i < opt_balances(meta.post_token_balances).len() ==> (opt_balances(
            meta.post_token_balances,
        )[i].account_index as int) < st.account_keys@.len())
}

/// The whole transform: every field of the emitted row pinned against the
/// raw transaction and its metadata.
pub open spec fn transaction_matches(
    t: Transaction,
    bt: Option<i64>,
    slot: u64,
    meta: RawMeta,
    st: RawDecodedTransaction,
) -> bool {
    &&& t.block_timestamp == bt
    &&& t.slot == slot
    &&& t.transaction_id@ == st.signatures@[0]@
    &&& t.is_successful == meta.succeeded
    &&& (match meta.error {
        Some(e) => t.error@ == e@,
        None => t.error@ == Seq::<char>::empty(),
    })
    &&& t.fee == meta.fee
    &&& t.accounts@.len() == st.account_keys@.len()
    &&& (forall|i: int|
        0 <= i < st.account_keys@.len() ==> account_matches(#[trigger] t.accounts@[i], st, meta, i))
    &&& t.instructions@.len() == st.instructions@.len()
    &&& (forall|i: int|
        0 <= i < st.instructions@.len() ==> instruction_matches(
            #[trigger] t.instructions@[i],
            st.instructions@[i],
            st.account_keys@,
        ))
    &&& (match meta.log_messages {
        Some(m) => t.log_messages@.len() == m@.len() && (forall|i: int|
            0 <= i < m@.len() ==> #[trigger] t.log_messages@[i]@ == m@[i]@),
        None => t.log_messages@.len() == 0,
    })
}

// --- The executable transform ---

/// Collect the token balances belonging to one account index, trimming each
/// amount to the sink's precision.
fn collect_tokens(balances: &Option<Vec<RawTokenBalance>>, index: usize) -> (r: Vec<TokenBalance>)
    ensures
        token_views(r@) == tokens_for(opt_balances(*balances), index as int),
{
    let mut r: Vec<TokenBalance> = Vec::new();
    match balances {
        None => {
            proof {
                assert(token_views(r@) =~= tokens_for(opt_balances(*balances), index as int));
            }
        },
        Some(list) => {
            let mut i: usize = 0;
            while i < list.len()
                invariant
                    i <= list@.len(),
                    token_views(r@) == tokens_for(list@.take(i as int), index as int),
                decreases list@.len() - i,
            {
                let b = &list[i];
                proof {
                    assert(list@.take(i + 1).drop_last() =~= list@.take(i as int));
                    assert(list@.take(i + 1).last() == list@[i as int]);
                }
                if b.account_index as usize == index {
                    let t = TokenBalance {
                        mint: b.mint.clone(),
                        amount: trim_decimals(&b.ui_amount_string).to_owned(),
                    };
                    r.push(t);
                    proof {
                        assert(token_views(r@) =~= tokens_for(
                            list@.take(i + 1),
                            index as int,
                        ));
                    }
                } else {
                    proof {
                        assert(token_views(r@) =~= tokens_for(
                            list@.take(i + 1),
                            index as int,
                        ));
                    }
                }
                i = i + 1;
            }
            proof {
                assert(list@.take(list@.len() as int) =~= list@);
            }
        },
    }
    r
}

/// Clone a list of strings, keeping each element's characters.
fn clone_strings(v: &Vec<String>) -> (r: Vec<String>)
    ensures
        r@.len() == v@.len(),
        forall|i: int| 0 <= i < v@.len() ==> #[trigger] r@[i]@ == v@[i]@,
{
    let mut r: Vec<String> = Vec::new();
    let mut i: usize = 0;
    while i < v.len()
        invariant
            i <= v@.len(),
            r@.len() == i,
            forall|j: int| 0 <= j < i ==> #[trigger] r@[j]@ == v@[j]@,
        decreases v@.len() - i,
    {
        r.push(v[i].clone());
        i = i + 1;
    }
    r
}

impl Transaction {
    /// Build the warehouse row for one raw transaction. Every output field
    /// is a function of the inputs; indices resolve against the
    /// transaction's own account list and token amounts pass through the
    /// truncation rule.
    pub fn new(
        block_timestamp: &Option<i64>,
        slot: u64,
        meta: &RawMeta,
        solana_transaction: &RawDecodedTransaction,
    ) -> (t: Transaction)
        requires
            raw_transaction_well_formed(*solana_transaction, *meta),
        ensures
            transaction_matches(t, *block_timestamp, slot, *meta, *solana_transaction),
            t.is_successful <==> t.error@.len() == 0,
    {
        let n_keys = solana_transaction.account_keys.len();
        let mut accounts: Vec<Account> = Vec::new();
        let mut i: usize = 0;
        while i < n_keys
            invariant
                raw_transaction_well_formed(*solana_transaction, *meta),
                n_keys == solana_transaction.account_keys@.len(),
                i <= n_keys,
                accounts@.len() == i,
                forall|j: int|
                    0 <= j < i ==> account_matches(
                        #[trigger] accounts@[j],
                        *solana_transaction,
                        *meta,
                        j,
                    ),
            decreases n_keys - i,
        {
            let a = Account {
                address: solana_transaction.account_keys[i].clone(),
                pre_sol_balance: meta.pre_balances[i],
                post_sol_balance: meta.post_balances[i],
                pre_token_balances: collect_tokens(&meta.pre_token_balances, i),
                post_token_balances: collect_tokens(&meta.post_token_balances, i),
            };
            accounts.push(a);
            i = i + 1;
        }

        let mut instructions: Vec<Instruction> = Vec::new();
        let mut i: usize = 0;
        while i < solana_transaction.instructions.len()
            invariant
                raw_transaction_well_formed(*solana_transaction, *meta),
                i <= solana_transaction.instructions@.len(),
                instructions@.len() == i,
                forall|j: int|
                    0 <= j < i ==> instruction_matches(
                        #[trigger] instructions@[j],
                        solana_transaction.instructions@[j],
                        solana_transaction.account_keys@,
                    ),
            decreases solana_transaction.instructions@.len() - i,
        {
            let ins = &solana_transaction.instructions[i];
            let mut accs: Vec<String> = Vec::new();
            let mut k: usize = 0;
            while k < ins.accounts.len()
                invariant
                    instruction_indices_ok(*ins, solana_transaction.account_keys@.len() as int),
                    k <= ins.accounts@.len(),
                    accs@.len() == k,
                    forall|m: int|
                        0 <= m < k ==> #[trigger] accs@[m]@ == solana_transaction.account_keys@[ins.accounts@[m] as int]@,
                decreases ins.accounts@.len() - k,
            {
                let idx = ins.accounts[k] as usize;
                accs.push(solana_transaction.account_keys[idx].clone());
                k = k + 1;
            }
            let data = base64_encode(&ins.data);
            instructions.push(
                Instruction {
                    program_id: solana_transaction.account_keys[ins.program_id_index as usize].clone(),
                    accounts: accs,
                    data,
                },
            );
            i = i + 1;
        }

        let error = match &meta.error {
            Some(e) => e.clone(),
            None => String::new(),
        };
        let log_messages = match &meta.log_messages {
            Some(m) => clone_strings(m),
            None => Vec::new(),
        };

        Transaction {
            block_timestamp: *block_timestamp,
            slot,
            transaction_id: solana_transaction.signatures[0].clone(),
            is_successful: meta.succeeded,
            error,
            fee: meta.fee,
            accounts,
            instructions,
            log_messages,
        }
    }
}

// --- Per-slot fatal conditions ---

/// Why a slot's worker must abort: a raw transaction without execution
/// metadata, one that failed to decode, or one whose signatures did not
/// verify. None of these is retried.
#[derive(Clone, Copy, PartialEq, Eq, Structural, Debug)]
pub enum ProcessError {
    MissingMeta,
    DecodeFailed,
    SignatureInvalid,
}

/// One entry of a raw block's transaction list: the metadata if the ledger
/// supplied any, the decoded transaction if decoding succeeded, and whether
/// its signatures verified.
pub struct RawTransactionEntry {
    pub meta: Option<RawMeta>,
    pub transaction: Option<RawDecodedTransaction>,
    pub signature_valid: bool,
}

/// Decide `raw_transaction_well_formed` at run time, so unverified callers
/// can establish it before asking for the transform.
pub fn check_raw_transaction(st: &RawDecodedTransaction, meta: &RawMeta) -> (r: bool)
    ensures
        r == raw_transaction_well_formed(*st, *meta),
{
    let n = st.account_keys.len();
    if st.signatures.len() < 1 {
        return false;
    }
    match &meta.error {
        Some(e) => {
            if meta.succeeded {
                return false;
            }
            if e.as_str().is_empty() {
                return false;
            }
        },
        None => {
            if !meta.succeeded {
                return false;
            }
        },
    }
    if meta.pre_balances.len() < n {
        return false;
    }
    if meta.post_balances.len() < n {
        return false;
    }
    let mut i: usize = 0;
    while i < st.instructions.len()
        invariant
            n == st.account_keys@.len(),
            i <= st.instructions@.len(),
            forall|j: int|
                0 <= j < i ==> instruction_indices_ok(#[trigger] st.instructions@[j], n as int),
        decreases st.instructions@.len() - i,
    {
        let ins = &st.instructions[i];
        if ins.program_id_index as usize >= n {
            assert(!instruction_indices_ok(st.instructions@[i as int], n as int));
            return false;
        }
        let mut k: usize = 0;
        while k < ins.accounts.len()
            invariant
                n == st.account_keys@.len(),
                0 <= i < st.instructions@.len(),
                *ins == st.instructions@[i as int],
                k <= ins.accounts@.len(),
                forall|m: int| 0 <= m < k ==> (ins.accounts@[m] as int) < n,
            decreases ins.accounts@.len() - k,
        {
            if ins.accounts[k] as usize >= n {
                assert(!instruction_indices_ok(st.instructions@[i as int], n as int));
                return false;
            }
            k = k + 1;
        }
        i = i + 1;
    }
    if let Some(list) = &meta.pre_token_balances {
        let mut i: usize = 0;
        while i < list.len()
            invariant
                n == st.account_keys@.len(),
                i <= list@.len(),
                list@ == opt_balances(meta.pre_token_balances),
                forall|j: int| 0 <= j < i ==> (#[trigger] list@[j].account_index as int) < n,
            decreases list@.len() - i,
        {
            if list[i].account_index as usize >= n {
                return false;
            }
            i = i + 1;
        }
    }
    if let Some(list) = &meta.post_token_balances {
        let mut i: usize = 0;
        while i < list.len()
            invariant
                n == st.account_keys@.len(),
                i <= list@.len(),
                list@ == opt_balances(meta.post_token_balances),
                forall|j: int| 0 <= j < i ==> (#[trigger] list@[j].account_index as int) < n,
            decreases list@.len() - i,
        {
            if list[i].account_index as usize >= n {
                return false;
            }
            i = i + 1;
        }
    }
    true
}

/// The fatal condition one raw entry trips, checked in order: missing
/// metadata, then decode failure, then signature failure.
pub open spec fn tx_fatal(e: RawTransactionEntry) -> Option<ProcessError> {
    if e.meta is None {
        Some(ProcessError::MissingMeta)
    } else if e.transaction is None {
        Some(ProcessError::DecodeFailed)
    } else if !e.signature_valid {
        Some(ProcessError::SignatureInvalid)
    } else {
        None
    }
}

} // verus!
