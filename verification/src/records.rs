//! The record and batch data model.
//!
//! A batch of records enters a chain together with a base offset, a monotonic
//! position marker that every stage must pass through unchanged. A batch
//! leaves a chain as an ordered sequence of successfully produced records
//! plus an optional terminal error; the error being present means the
//! successes are a partial result up to the failing stage.

use vstd::prelude::*;

verus! {

/// Mathematical image of a [`Record`]: its optional key and its value.
pub struct RecordView {
    pub key: Option<Seq<u8>>,
    pub value: Seq<u8>,
}

/// One data record: an optional key and a value, both plain byte strings.
#[derive(Clone, Debug, PartialEq, Eq)]
pub struct Record {
    pub key: Option<Vec<u8>>,
    pub value: Vec<u8>,
}

impl View for Record {
    type V = RecordView;

    open spec fn view(&self) -> RecordView {
        RecordView {
            key: match self.key {
                Some(k) => Some(k@),
                None => None,
            },
            value: self.value@,
        }
    }
}

impl Record {
    /// A record with no key.
    pub fn new(value: Vec<u8>) -> (r: Self)
        ensures
            r@.key is None,
            r@.value == value@,
    {
        Record { key: None, value }
    }

    /// A record with a key.
    pub fn new_key_value(key: Vec<u8>, value: Vec<u8>) -> (r: Self)
        ensures
            r@.key == Some(key@),
            r@.value == value@,
    {
        Record { key: Some(key), value }
    }
}

/// The view of a sequence of records.
pub open spec fn records_view(records: Seq<Record>) -> Seq<RecordView> {
    records.map_values(|r: Record| r@)
}

/// The payload size of one record: the bytes of its key and its value.
pub open spec fn record_payload(r: RecordView) -> int {
    (match r.key {
        Some(k) => k.len() as int,
        None => 0,
    }) + r.value.len() as int
}

/// The payload size of a batch of records.
pub open spec fn spec_payload_size(records: Seq<RecordView>) -> int
    decreases records.len(),
{
    if records.len() == 0 {
        0
    } else {
        spec_payload_size(records.drop_last()) + record_payload(records.last())
    }
}

/// Computes the payload size of a batch, saturating at the counter
/// domain's maximum.
pub fn compute_payload(records: &Vec<Record>) -> (r: u64)
    ensures
        r as int == if spec_payload_size(records_view(records@)) > u64::MAX as int {
            u64::MAX as int
        } else {
            spec_payload_size(records_view(records@))
        },
{
    let ghost rv = records_view(records@);
    let n: usize = records.len();
    let mut acc: u64 = 0;
    let mut i: usize = 0;
    while i < n
        invariant
            n == records.len(),
            0 <= i <= n,
            rv == records_view(records@),
            rv.len() == n,
            acc as int == if spec_payload_size(rv.take(i as int)) > u64::MAX as int {
                u64::MAX as int
            } else {
                spec_payload_size(rv.take(i as int))
            },
        decreases n - i,
    {
        proof {
            assert(spec_payload_size(rv.take(i as int)) >= 0) by {
                lemma_payload_size_nonneg(rv.take(i as int));
            }
        }
        let kl: u64 = match &records[i].key {
            Some(k) => k.len() as u64,
            None => 0,
        };
        let vl: u64 = records[i].value.len() as u64;
        let step: u64 = crate::metrics::sat_add(kl, vl);
        acc = crate::metrics::sat_add(acc, step);
        proof {
            assert(rv.take(i + 1).drop_last() =~= rv.take(i as int));
            assert(rv.take(i + 1).last() == rv[i as int]);
            assert(record_payload(rv[i as int]) == kl as int + vl as int);
        }
        i += 1;
    }
    proof {
        assert(rv.take(n as int) =~= rv);
    }
    acc
}

/// The payload size of a batch is never negative.
pub proof fn lemma_payload_size_nonneg(records: Seq<RecordView>)
    ensures
        spec_payload_size(records) >= 0,
    decreases records.len(),
{
    if records.len() > 0 {
        lemma_payload_size_nonneg(records.drop_last());
    }
}

/// Mathematical image of a [`SmartModuleInput`].
pub struct InputView {
    pub base_offset: int,
    pub records: Seq<RecordView>,
}

/// An input batch: an ordered sequence of records plus the base offset of
/// the batch.
#[derive(Clone, Debug)]
pub struct SmartModuleInput {
    pub base_offset: i64,
    pub records: Vec<Record>,
}

impl View for SmartModuleInput {
    type V = InputView;

    open spec fn view(&self) -> InputView {
        InputView { base_offset: self.base_offset as int, records: records_view(self.records@) }
    }
}

impl SmartModuleInput {
    /// A batch over the given records, at base offset zero.
    pub fn from_records(records: Vec<Record>) -> (r: Self)
        ensures
            r@.base_offset == 0,
            r@.records == records_view(records@),
    {
        SmartModuleInput { base_offset: 0, records }
    }

    /// The base offset of this batch of records.
    pub fn base_offset(&self) -> (r: i64)
        ensures
            r as int == self@.base_offset,
    {
        self.base_offset
    }

    /// Replaces the base offset.
    pub fn set_base_offset(&mut self, base_offset: i64)
        ensures
            final(self)@.base_offset == base_offset as int,
            final(self)@.records == old(self)@.records,
    {
        self.base_offset = base_offset;
    }

    /// The records of this batch.
    pub fn records(&self) -> (r: &Vec<Record>)
        ensures
            records_view(r@) == self@.records,
    {
        &self.records
    }
}

impl From<Vec<Record>> for SmartModuleInput {
    fn from(records: Vec<Record>) -> (r: Self) {
        SmartModuleInput { base_offset: 0, records }
    }
}

impl vstd::std_specs::convert::FromSpecImpl<Vec<Record>> for SmartModuleInput {
    open spec fn obeys_from_spec() -> bool {
        true
    }

    open spec fn from_spec(records: Vec<Record>) -> SmartModuleInput {
        SmartModuleInput { base_offset: 0, records }
    }
}

/// Mathematical image of a [`SmartModuleTransformError`].
pub enum TransformErrorView {
    /// A status decoded from a negative guest return code.
    Status(crate::error::SmartModuleTransformErrorStatus),
    /// An error the guest reported inside its produced output batch; the
    /// payload is the guest's hint text.
    Runtime(Seq<char>),
}

/// The terminal error of an output batch: either a status the host decoded
/// from a negative guest return code, or an error the guest itself reported
/// inside its produced output batch.
#[derive(Clone, Debug, PartialEq, Eq)]
pub enum SmartModuleTransformError {
    Status(crate::error::SmartModuleTransformErrorStatus),
    Runtime(String),
}

impl View for SmartModuleTransformError {
    type V = TransformErrorView;

    open spec fn view(&self) -> TransformErrorView {
        match self {
            SmartModuleTransformError::Status(s) => TransformErrorView::Status(*s),
            SmartModuleTransformError::Runtime(hint) => TransformErrorView::Runtime(hint@),
        }
    }
}

/// Mathematical image of a [`SmartModuleOutput`].
pub struct OutputView {
    pub base_offset: int,
    pub successes: Seq<RecordView>,
    pub error: Option<TransformErrorView>,
}

/// An output batch: the successfully produced records, an optional terminal
/// error, and the base offset carried over unchanged from the input batch.
#[derive(Clone, Debug)]
pub struct SmartModuleOutput {
    pub base_offset: i64,
    pub successes: Vec<Record>,
    pub error: Option<SmartModuleTransformError>,
}

impl View for SmartModuleOutput {
    type V = OutputView;

    open spec fn view(&self) -> OutputView {
        OutputView {
            base_offset: self.base_offset as int,
            successes: records_view(self.successes@),
            error: match self.error {
                Some(e) => Some(e@),
                None => None,
            },
        }
    }
}

impl SmartModuleOutput {
    /// A successful output batch over the given records.
    pub fn new(base_offset: i64, successes: Vec<Record>) -> (r: Self)
        ensures
            r@.base_offset == base_offset as int,
            r@.successes == records_view(successes@),
            r@.error is None,
    {
        SmartModuleOutput { base_offset, successes, error: None }
    }
}

} // verus!
