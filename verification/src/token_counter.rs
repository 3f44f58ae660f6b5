//! The LLM token counter.
//!
//! A language model reports, for each generation, how many prompt tokens it
//! evaluated (`prompt_eval_count`) and how many tokens it produced
//! (`eval_count`). The counter keeps a running sum of each in a key-value
//! store, under the keys `total-prompt-eval-count` and `total-eval-count`,
//! as 8-byte little-endian integers.
//!
//! Talking to the store is asynchronous work done by the program around the
//! library, so one collection is an exchange: [`LLMTokenCounter::collect`]
//! looks at the model's response and either fails at once or asks for a
//! store request; the caller performs it and hands the reply to
//! [`Collect::resume`], which asks for the next request or finishes.
//! The exchange reads both totals, then writes both new totals, and
//! finishes with them.
use vstd::bytes::{
    lemma_auto_spec_u64_to_from_le_bytes, spec_u64_from_le_bytes, spec_u64_to_le_bytes,
    u64_from_le_bytes, u64_to_le_bytes,
};
use vstd::prelude::*;

use crate::text::ascii_bytes;

verus! {

/// The running totals after a collection.
#[derive(Clone, Copy, PartialEq, Eq, Structural, Debug)]
pub struct TokenCounts {
    pub total_prompt_eval_count: u64,
    pub total_eval_count: u64,
}

/// What one count field of the model's JSON response holds, as far as the
/// counter reads it.
#[derive(Clone, Copy, PartialEq, Eq, Structural, Debug)]
pub enum CountField {
    /// The response has no such field.
    Absent,
    /// The field is there, but is not an integer that fits in a `u64`.
    NotU64,
    /// The field holds this count.
    Count(u64),
}

/// The two count fields of the model's JSON response.
#[derive(Clone, Copy, PartialEq, Eq, Structural, Debug)]
pub struct ModelResponse {
    pub prompt_eval_count: CountField,
    pub eval_count: CountField,
}

/// Why a collection failed.
#[derive(Clone, Copy, PartialEq, Eq, Structural, Debug)]
pub enum CollectError {
    /// The response has no `prompt_eval_count` field.
    MissingPromptEvalCount,
    /// The response's `prompt_eval_count` is not a `u64`.
    PromptEvalCountNotU64,
    /// The response has no `eval_count` field.
    MissingEvalCount,
    /// The response's `eval_count` is not a `u64`.
    EvalCountNotU64,
    /// A request to the key-value store failed.
    StoreFailure,
}

/// The message that describes each error.
pub open spec fn error_message(e: CollectError) -> Seq<char> {
    match e {
        CollectError::MissingPromptEvalCount => "body json has prompt_eval_count"@,
        CollectError::PromptEvalCountNotU64 => "prompt_eval_count is not u64"@,
        CollectError::MissingEvalCount => "body json has eval_count"@,
        CollectError::EvalCountNotU64 => "eval_count is not u64"@,
        CollectError::StoreFailure => "key-value store request failed"@,
    }
}

impl CollectError {
    /// The error's message.
    pub fn message(&self) -> (m: &'static str)
        ensures
            m@ == error_message(*self),
    {
        match self {
            CollectError::MissingPromptEvalCount => "body json has prompt_eval_count",
            CollectError::PromptEvalCountNotU64 => "prompt_eval_count is not u64",
            CollectError::MissingEvalCount => "body json has eval_count",
            CollectError::EvalCountNotU64 => "eval_count is not u64",
            CollectError::StoreFailure => "key-value store request failed",
        }
    }
}

/// The two counts of a response, or the first field that is missing or
/// not a `u64` (`prompt_eval_count` is looked at first).
pub open spec fn spec_read_counts(r: ModelResponse) -> Result<(u64, u64), CollectError> {
    match r.prompt_eval_count {
        CountField::Absent => Err(CollectError::MissingPromptEvalCount),
        CountField::NotU64 => Err(CollectError::PromptEvalCountNotU64),
        CountField::Count(p) => match r.eval_count {
            CountField::Absent => Err(CollectError::MissingEvalCount),
            CountField::NotU64 => Err(CollectError::EvalCountNotU64),
            CountField::Count(e) => Ok((p, e)),
        },
    }
}

/// Reads the prompt and generation counts out of a response.
pub fn read_counts(r: &ModelResponse) -> (res: Result<(u64, u64), CollectError>)
    ensures
        res == spec_read_counts(*r),
{
    let p = match r.prompt_eval_count {
        CountField::Absent => return Err(CollectError::MissingPromptEvalCount),
        CountField::NotU64 => return Err(CollectError::PromptEvalCountNotU64),
        CountField::Count(p) => p,
    };
    let e = match r.eval_count {
        CountField::Absent => return Err(CollectError::MissingEvalCount),
        CountField::NotU64 => return Err(CollectError::EvalCountNotU64),
        CountField::Count(e) => e,
    };
    Ok((p, e))
}

/// The two store entries the counter keeps.
#[derive(Clone, Copy, PartialEq, Eq, Structural, Debug)]
pub enum CountKey {
    /// The running sum of `prompt_eval_count`.
    PromptEvalTotal,
    /// The running sum of `eval_count`.
    EvalTotal,
}

impl CountKey {
    /// The key under which the entry is stored.
    pub open spec fn spec_key(self) -> Seq<u8> {
        match self {
            CountKey::PromptEvalTotal => ascii_bytes("total-prompt-eval-count"@),
            CountKey::EvalTotal => ascii_bytes("total-eval-count"@),
        }
    }

    /// The key under which the entry is stored.
    pub fn key(&self) -> (k: Vec<u8>)
        ensures
            k@ == self.spec_key(),
    {
        let text = match self {
            CountKey::PromptEvalTotal => "total-prompt-eval-count",
            CountKey::EvalTotal => "total-eval-count",
        };
        proof {
            reveal_strlit("total-prompt-eval-count");
            reveal_strlit("total-eval-count");
        }
        crate::text::ascii_to_bytes(text)
    }
}

/// Law: the two entries are stored under different keys, so writing one
/// never changes the other.
pub proof fn lemma_keys_distinct()
    ensures
        CountKey::PromptEvalTotal.spec_key() != CountKey::EvalTotal.spec_key(),
{
    reveal_strlit("total-prompt-eval-count");
    reveal_strlit("total-eval-count");
    assert(CountKey::PromptEvalTotal.spec_key().len() != CountKey::EvalTotal.spec_key().len());
}

/// A stored value is usable when it is absent or 8 bytes long.
pub open spec fn well_formed_value(v: Option<Seq<u8>>) -> bool {
    match v {
        None => true,
        Some(b) => b.len() == 8,
    }
}

/// The total a stored value stands for: 0 when absent, else its
/// little-endian value.
pub open spec fn stored_total(v: Option<Seq<u8>>) -> u64 {
    match v {
        None => 0,
        Some(b) => spec_u64_from_le_bytes(b),
    }
}

/// The total a stored value stands for.
pub fn decode_total(v: &Option<Vec<u8>>) -> (t: u64)
    requires
        well_formed_value(opt_bytes(*v)),
    ensures
        t == stored_total(opt_bytes(*v)),
{
    match v {
        None => 0,
        Some(b) => u64_from_le_bytes(b.as_slice()),
    }
}

/// The value that stores a total.
pub fn encode_total(t: u64) -> (b: Vec<u8>)
    ensures
        b@ == spec_u64_to_le_bytes(t),
        well_formed_value(Some(b@)),
        stored_total(Some(b@)) == t,
{
    proof {
        lemma_auto_spec_u64_to_from_le_bytes();
    }
    u64_to_le_bytes(t)
}

/// Law: a stored total reads back as the total that was stored.
pub proof fn lemma_total_round_trip(t: u64)
    ensures
        well_formed_value(Some(spec_u64_to_le_bytes(t))),
        stored_total(Some(spec_u64_to_le_bytes(t))) == t,
{
    lemma_auto_spec_u64_to_from_le_bytes();
}

/// The bytes of an optional value.
pub open spec fn opt_bytes(v: Option<Vec<u8>>) -> Option<Seq<u8>> {
    match v {
        None => None,
        Some(b) => Some(b@),
    }
}

/// A request to the key-value store.
pub enum StoreRequest {
    /// Read the entry.
    Get(CountKey),
    /// Write the entry.
    Put(CountKey, Vec<u8>),
}

/// A request to the key-value store, with its value as a sequence.
pub enum StoreRequestView {
    Get(CountKey),
    Put(CountKey, Seq<u8>),
}

impl View for StoreRequest {
    type V = StoreRequestView;

    open spec fn view(&self) -> StoreRequestView {
        match self {
            StoreRequest::Get(k) => StoreRequestView::Get(*k),
            StoreRequest::Put(k, v) => StoreRequestView::Put(*k, v@),
        }
    }
}

/// The store's answer to the last request.
pub enum StoreReply {
    /// The entry read (for `Get`).
    Value(Option<Vec<u8>>),
    /// The entry was written (for `Put`).
    Stored,
    /// The request failed.
    Failed,
}

/// The store's answer, with the value as a sequence.
pub enum StoreReplyView {
    Value(Option<Seq<u8>>),
    Stored,
    Failed,
}

impl View for StoreReply {
    type V = StoreReplyView;

    open spec fn view(&self) -> StoreReplyView {
        match self {
            StoreReply::Value(v) => StoreReplyView::Value(opt_bytes(*v)),
            StoreReply::Stored => StoreReplyView::Stored,
            StoreReply::Failed => StoreReplyView::Failed,
        }
    }
}

/// Where a collection stands while it waits for the store.
#[derive(Clone, Copy, PartialEq, Eq, Structural, Debug)]
pub enum Collect {
    /// Waiting for the stored prompt total.
    ReadingPromptTotal { prompt_eval_count: u64, eval_count: u64 },
    /// Waiting for the stored generation total.
    ReadingEvalTotal { prompt_eval_count: u64, eval_count: u64, old_prompt_total: u64 },
    /// Waiting for the new prompt total to be written.
    WritingPromptTotal { totals: TokenCounts },
    /// Waiting for the new generation total to be written.
    WritingEvalTotal { totals: TokenCounts },
}

/// What a collection asks for next.
pub enum Next {
    /// Perform this request, then resume the collection with the reply.
    Request(Collect, StoreRequest),
    /// The collection is over.
    Finished(Result<TokenCounts, CollectError>),
}

/// What a collection asks for next, with sequences for byte values.
pub enum NextView {
    Request(Collect, StoreRequestView),
    Finished(Result<TokenCounts, CollectError>),
}

impl View for Next {
    type V = NextView;

    open spec fn view(&self) -> NextView {
        match self {
            Next::Request(c, r) => NextView::Request(*c, r@),
            Next::Finished(r) => NextView::Finished(*r),
        }
    }
}

/// How a collection starts: it fails on a response without usable counts,
/// and otherwise reads the stored prompt total.
pub open spec fn spec_begin(r: ModelResponse) -> NextView {
    match spec_read_counts(r) {
        Err(e) => NextView::Finished(Err(e)),
        Ok((p, e)) => NextView::Request(
            Collect::ReadingPromptTotal { prompt_eval_count: p, eval_count: e },
            StoreRequestView::Get(CountKey::PromptEvalTotal),
        ),
    }
}

/// The replies a collection can take in each state: a failure always; a
/// value while reading, when it is absent or 8 bytes and the new totals fit
/// in a `u64`; a write acknowledgement while writing.
pub open spec fn spec_accepts(c: Collect, reply: StoreReplyView) -> bool {
    match reply {
        StoreReplyView::Failed => true,
        StoreReplyView::Value(v) => match c {
            Collect::ReadingPromptTotal { .. } => well_formed_value(v),
            Collect::ReadingEvalTotal { prompt_eval_count, eval_count, old_prompt_total } => {
                &&& well_formed_value(v)
                &&& old_prompt_total + prompt_eval_count <= u64::MAX
                &&& stored_total(v) + eval_count <= u64::MAX
            },
            _ => false,
        },
        StoreReplyView::Stored => match c {
            Collect::WritingPromptTotal { .. } => true,
            Collect::WritingEvalTotal { .. } => true,
            _ => false,
        },
    }
}

/// One step of a collection: a failed request ends it with
/// `StoreFailure`; the prompt total read leads to reading the generation
/// total; the generation total read leads to writing the new prompt total
/// (old total plus count); that write leads to writing the new generation
/// total, and that write ends the collection with both new totals.
pub open spec fn spec_resume(c: Collect, reply: StoreReplyView) -> NextView {
    match reply {
        StoreReplyView::Failed => NextView::Finished(Err(CollectError::StoreFailure)),
        StoreReplyView::Value(v) => match c {
            Collect::ReadingPromptTotal { prompt_eval_count, eval_count } => NextView::Request(
                Collect::ReadingEvalTotal {
                    prompt_eval_count,
                    eval_count,
                    old_prompt_total: stored_total(v),
                },
                StoreRequestView::Get(CountKey::EvalTotal),
            ),
            Collect::ReadingEvalTotal { prompt_eval_count, eval_count, old_prompt_total } => {
                let totals = TokenCounts {
                    total_prompt_eval_count: (old_prompt_total + prompt_eval_count) as u64,
                    total_eval_count: (stored_total(v) + eval_count) as u64,
                };
                NextView::Request(
                    Collect::WritingPromptTotal { totals },
                    StoreRequestView::Put(
                        CountKey::PromptEvalTotal,
                        spec_u64_to_le_bytes(totals.total_prompt_eval_count),
                    ),
                )
            },
            _ => arbitrary(),
        },
        StoreReplyView::Stored => match c {
            Collect::WritingPromptTotal { totals } => NextView::Request(
                Collect::WritingEvalTotal { totals },
                StoreRequestView::Put(
                    CountKey::EvalTotal,
                    spec_u64_to_le_bytes(totals.total_eval_count),
                ),
            ),
            Collect::WritingEvalTotal { totals } => NextView::Finished(Ok(totals)),
            _ => arbitrary(),
        },
    }
}

impl Collect {
    /// Whether the collection can take this reply.
    pub fn accepts(&self, reply: &StoreReply) -> (b: bool)
        ensures
            b == spec_accepts(*self, reply@),
    {
        match reply {
            StoreReply::Failed => true,
            StoreReply::Value(v) => {
                let v_ok = match v {
                    None => true,
                    Some(b) => b.len() == 8,
                };
                match self {
                    Collect::ReadingPromptTotal { .. } => v_ok,
                    Collect::ReadingEvalTotal { prompt_eval_count, eval_count, old_prompt_total } => {
                        if !v_ok {
                            false
                        } else {
                            let old_eval_total = decode_total(v);
                            *old_prompt_total <= u64::MAX - *prompt_eval_count
                                && old_eval_total <= u64::MAX - *eval_count
                        }
                    },
                    _ => false,
                }
            },
            StoreReply::Stored => match self {
                Collect::WritingPromptTotal { .. } => true,
                Collect::WritingEvalTotal { .. } => true,
                _ => false,
            },
        }
    }

    /// Takes the store's reply to the last request and says what comes next.
    pub fn resume(self, reply: StoreReply) -> (n: Next)
        requires
            spec_accepts(self, reply@),
        ensures
            n@ == spec_resume(self, reply@),
    {
        match reply {
            StoreReply::Failed => Next::Finished(Err(CollectError::StoreFailure)),
            StoreReply::Value(v) => match self {
                Collect::ReadingPromptTotal { prompt_eval_count, eval_count } => {
                    let old_prompt_total = decode_total(&v);
                    Next::Request(
                        Collect::ReadingEvalTotal { prompt_eval_count, eval_count, old_prompt_total },
                        StoreRequest::Get(CountKey::EvalTotal),
                    )
                },
                Collect::ReadingEvalTotal { prompt_eval_count, eval_count, old_prompt_total } => {
                    let old_eval_total = decode_total(&v);
                    let totals = TokenCounts {
                        total_prompt_eval_count: old_prompt_total + prompt_eval_count,
                        total_eval_count: old_eval_total + eval_count,
                    };
                    let bytes = encode_total(totals.total_prompt_eval_count);
                    Next::Request(
                        Collect::WritingPromptTotal { totals },
                        StoreRequest::Put(CountKey::PromptEvalTotal, bytes),
                    )
                },
                _ => {
                    proof {
                        assert(false);
                    }
                    Next::Finished(Err(CollectError::StoreFailure))
                },
            },
            StoreReply::Stored => match self {
                Collect::WritingPromptTotal { totals } => {
                    let bytes = encode_total(totals.total_eval_count);
                    Next::Request(
                        Collect::WritingEvalTotal { totals },
                        StoreRequest::Put(CountKey::EvalTotal, bytes),
                    )
                },
                Collect::WritingEvalTotal { totals } => Next::Finished(Ok(totals)),
                _ => {
                    proof {
                        assert(false);
                    }
                    Next::Finished(Err(CollectError::StoreFailure))
                },
            },
        }
    }
}

/// The token counter, holding the key-value store it counts in.
pub struct LLMTokenCounter<S> {
    kv_store: S,
}

impl<S> LLMTokenCounter<S> {
    /// The store the counter counts in.
    pub closed spec fn spec_kv_store(&self) -> S {
        self.kv_store
    }

    /// Creates a token counter that counts in the given key-value store.
    pub fn new(kv_store: S) -> (c: Self)
        ensures
            c.spec_kv_store() == kv_store,
    {
        Self { kv_store }
    }

    /// The store the counter counts in; the caller performs the
    /// collection's requests on it.
    pub fn kv_store(&self) -> (s: &S)
        ensures
            *s == self.spec_kv_store(),
    {
        &self.kv_store
    }

    /// Starts collecting the token counts of a model response.
    pub fn collect(&self, response: &ModelResponse) -> (n: Next)
        ensures
            n@ == spec_begin(*response),
    {
        match read_counts(response) {
            Err(e) => Next::Finished(Err(e)),
            Ok((p, e)) => Next::Request(
                Collect::ReadingPromptTotal { prompt_eval_count: p, eval_count: e },
                StoreRequest::Get(CountKey::PromptEvalTotal),
            ),
        }
    }
}

/// A key-value store holding the counter's entries.
pub type StoreContents = Map<CountKey, Seq<u8>>;

/// The value a store holds for a key, if any.
pub open spec fn lookup(store: StoreContents, k: CountKey) -> Option<Seq<u8>> {
    if store.dom().contains(k) {
        Some(store[k])
    } else {
        None
    }
}

/// A store that behaves as a map: a read gives what was last written, a
/// write replaces the entry.
pub open spec fn serve(store: StoreContents, req: StoreRequestView) -> (StoreContents, StoreReplyView) {
    match req {
        StoreRequestView::Get(k) => (store, StoreReplyView::Value(lookup(store, k))),
        StoreRequestView::Put(k, v) => (store.insert(k, v), StoreReplyView::Stored),
    }
}

/// Runs a collection against such a store for at most `fuel` requests:
/// the store afterwards, and the outcome if the collection finished.
pub open spec fn run(store: StoreContents, next: NextView, fuel: nat) -> (StoreContents, Option<Result<TokenCounts, CollectError>>)
    decreases fuel,
{
    match next {
        NextView::Finished(r) => (store, Some(r)),
        NextView::Request(c, req) => if fuel == 0 {
            (store, None)
        } else {
            let (after, reply) = serve(store, req);
            run(after, spec_resume(c, reply), (fuel - 1) as nat)
        },
    }
}

/// Whether every reply the store gives during the run is one the
/// collection takes (so the caller never has to stop it).
pub open spec fn run_accepted(store: StoreContents, next: NextView, fuel: nat) -> bool
    decreases fuel,
{
    match next {
        NextView::Finished(_) => true,
        NextView::Request(c, req) => fuel == 0 || {
            let (after, reply) = serve(store, req);
            &&& spec_accepts(c, reply)
            &&& run_accepted(after, spec_resume(c, reply), (fuel - 1) as nat)
        },
    }
}

/// The counter's entries in a store are usable.
pub open spec fn store_well_formed(store: StoreContents) -> bool {
    &&& well_formed_value(lookup(store, CountKey::PromptEvalTotal))
    &&& well_formed_value(lookup(store, CountKey::EvalTotal))
}

/// The total a store holds for a key.
pub open spec fn total(store: StoreContents, k: CountKey) -> u64 {
    stored_total(lookup(store, k))
}

/// Law: collecting a response with both counts, on a store whose entries
/// are usable and whose new totals fit in a `u64`, takes four requests,
/// never makes the caller stop, finishes with the old totals plus the
/// counts, and leaves the store holding exactly those totals (other entries
/// untouched).
pub proof fn lemma_collect_adds_counts(store: StoreContents, response: ModelResponse, p: u64, e: u64)
    requires
        store_well_formed(store),
        spec_read_counts(response) == Ok::<(u64, u64), CollectError>((p, e)),
        total(store, CountKey::PromptEvalTotal) + p <= u64::MAX,
        total(store, CountKey::EvalTotal) + e <= u64::MAX,
    ensures
        ({
            let totals = TokenCounts {
                total_prompt_eval_count: (total(store, CountKey::PromptEvalTotal) + p) as u64,
                total_eval_count: (total(store, CountKey::EvalTotal) + e) as u64,
            };
            &&& run_accepted(store, spec_begin(response), 4)
            &&& run(store, spec_begin(response), 4) == (
                store.insert(CountKey::PromptEvalTotal, spec_u64_to_le_bytes(totals.total_prompt_eval_count))
                    .insert(CountKey::EvalTotal, spec_u64_to_le_bytes(totals.total_eval_count)),
                Some(Ok::<TokenCounts, CollectError>(totals)),
            )
        }),
{
    reveal_with_fuel(run, 5);
    reveal_with_fuel(run_accepted, 5);
}

/// Law: the counts read from a response are its `prompt_eval_count`
/// followed by its `eval_count`, in that order; a missing or non-`u64`
/// field gives its own error, `prompt_eval_count` being looked at first.
pub proof fn lemma_read_counts_fields(r: ModelResponse)
    ensures
        r.prompt_eval_count == CountField::Absent ==> spec_read_counts(r) == Err::<(u64, u64), CollectError>(
            CollectError::MissingPromptEvalCount,
        ),
        r.prompt_eval_count == CountField::NotU64 ==> spec_read_counts(r) == Err::<(u64, u64), CollectError>(
            CollectError::PromptEvalCountNotU64,
        ),
        r.prompt_eval_count is Count && r.eval_count == CountField::Absent ==> spec_read_counts(r)
            == Err::<(u64, u64), CollectError>(CollectError::MissingEvalCount),
        r.prompt_eval_count is Count && r.eval_count == CountField::NotU64 ==> spec_read_counts(r)
            == Err::<(u64, u64), CollectError>(CollectError::EvalCountNotU64),
        forall|p: u64, e: u64|
            r.prompt_eval_count == CountField::Count(p) && r.eval_count == CountField::Count(e)
                ==> spec_read_counts(r) == Ok::<(u64, u64), CollectError>((p, e)),
{
}

/// Law: collecting a response whose fields hold the counts `p`
/// (`prompt_eval_count`) and `e` (`eval_count`), on a store whose entries
/// are usable and whose new totals fit in a `u64`, finishes with the old
/// prompt total plus `p` and the old generation total plus `e`, and leaves
/// exactly those totals in the store, each under its own key.
pub proof fn lemma_collect_adds_response_fields(store: StoreContents, response: ModelResponse, p: u64, e: u64)
    requires
        store_well_formed(store),
        response.prompt_eval_count == CountField::Count(p),
        response.eval_count == CountField::Count(e),
        total(store, CountKey::PromptEvalTotal) + p <= u64::MAX,
        total(store, CountKey::EvalTotal) + e <= u64::MAX,
    ensures
        ({
            let (after, outcome) = run(store, spec_begin(response), 4);
            &&& run_accepted(store, spec_begin(response), 4)
            &&& outcome == Some(Ok::<TokenCounts, CollectError>(TokenCounts {
                total_prompt_eval_count: (total(store, CountKey::PromptEvalTotal) + p) as u64,
                total_eval_count: (total(store, CountKey::EvalTotal) + e) as u64,
            }))
            &&& store_well_formed(after)
            &&& total(after, CountKey::PromptEvalTotal) == total(store, CountKey::PromptEvalTotal) + p
            &&& total(after, CountKey::EvalTotal) == total(store, CountKey::EvalTotal) + e
            &&& forall|k: CountKey| after.dom().contains(k)
        }),
{
    lemma_read_counts_fields(response);
    lemma_collect_adds_counts(store, response, p, e);
    let tp = (total(store, CountKey::PromptEvalTotal) + p) as u64;
    let te = (total(store, CountKey::EvalTotal) + e) as u64;
    lemma_total_round_trip(tp);
    lemma_total_round_trip(te);
    let after = run(store, spec_begin(response), 4).0;
    assert(lookup(after, CountKey::PromptEvalTotal) == Some(spec_u64_to_le_bytes(tp)));
    assert(lookup(after, CountKey::EvalTotal) == Some(spec_u64_to_le_bytes(te)));
    assert forall|k: CountKey| after.dom().contains(k) by {
        match k {
            CountKey::PromptEvalTotal => {},
            CountKey::EvalTotal => {},
        }
    }
}

/// Law: the totals are running sums. Two collections in a row, on a store
/// whose entries are usable and where the sums fit in a `u64`, finish with
/// the old totals plus both responses' counts, and the store then holds
/// usable entries that read back as those totals.
pub proof fn lemma_running_sum(
    store: StoreContents,
    first: ModelResponse,
    second: ModelResponse,
    p1: u64,
    e1: u64,
    p2: u64,
    e2: u64,
)
    requires
        store_well_formed(store),
        spec_read_counts(first) == Ok::<(u64, u64), CollectError>((p1, e1)),
        spec_read_counts(second) == Ok::<(u64, u64), CollectError>((p2, e2)),
        total(store, CountKey::PromptEvalTotal) + p1 + p2 <= u64::MAX,
        total(store, CountKey::EvalTotal) + e1 + e2 <= u64::MAX,
    ensures
        ({
            let after_first = run(store, spec_begin(first), 4).0;
            let (after_second, outcome) = run(after_first, spec_begin(second), 4);
            let totals = TokenCounts {
                total_prompt_eval_count: (total(store, CountKey::PromptEvalTotal) + p1 + p2) as u64,
                total_eval_count: (total(store, CountKey::EvalTotal) + e1 + e2) as u64,
            };
            &&& run_accepted(store, spec_begin(first), 4)
            &&& run_accepted(after_first, spec_begin(second), 4)
            &&& outcome == Some(Ok::<TokenCounts, CollectError>(totals))
            &&& store_well_formed(after_second)
            &&& total(after_second, CountKey::PromptEvalTotal) == totals.total_prompt_eval_count
            &&& total(after_second, CountKey::EvalTotal) == totals.total_eval_count
        }),
{
    lemma_collect_adds_counts(store, first, p1, e1);
    let t1p = (total(store, CountKey::PromptEvalTotal) + p1) as u64;
    let t1e = (total(store, CountKey::EvalTotal) + e1) as u64;
    let after_first = run(store, spec_begin(first), 4).0;
    lemma_total_round_trip(t1p);
    lemma_total_round_trip(t1e);
    assert(lookup(after_first, CountKey::PromptEvalTotal) == Some(spec_u64_to_le_bytes(t1p)));
    assert(lookup(after_first, CountKey::EvalTotal) == Some(spec_u64_to_le_bytes(t1e)));
    lemma_collect_adds_counts(after_first, second, p2, e2);
    let after_second = run(after_first, spec_begin(second), 4).0;
    let t2p = (t1p + p2) as u64;
    let t2e = (t1e + e2) as u64;
    lemma_total_round_trip(t2p);
    lemma_total_round_trip(t2e);
    assert(lookup(after_second, CountKey::PromptEvalTotal) == Some(spec_u64_to_le_bytes(t2p)));
    assert(lookup(after_second, CountKey::EvalTotal) == Some(spec_u64_to_le_bytes(t2e)));
}

/// Law: a response without usable counts fails with the first problem
/// found, before any request to the store, so the store is left as it was.
pub proof fn lemma_bad_response_leaves_store(store: StoreContents, response: ModelResponse, fuel: nat)
    requires
        spec_read_counts(response) is Err,
    ensures
        run(store, spec_begin(response), fuel) == (
            store,
            Some(Err::<TokenCounts, CollectError>(spec_read_counts(response)->Err_0)),
        ),
{
}

/// Law: whatever the collection is waiting for, a failed request ends it
/// with `StoreFailure`.
pub proof fn lemma_store_failure_ends_collection(c: Collect)
    ensures
        spec_accepts(c, StoreReplyView::Failed),
        spec_resume(c, StoreReplyView::Failed) == NextView::Finished(
            Err::<TokenCounts, CollectError>(CollectError::StoreFailure),
        ),
{
}

} // verus!
