//! The messages that the host gets back. Where an operation can fail, its
//! answer is a choice between the result and the failure that the engine
//! reported; where it can also find the engine not ready or suspended,
//! those are arms of their own.
use vstd::prelude::*;
use crate::common::{lemma_empty_payload, Empty, Failure, FailureModel, Header, HeaderModel};
use crate::message::{
    encoded, fold, lemma_fold_short, lemma_round_trip, numbered, Message,
};
use crate::pieces::{
    as_bytes, as_flag, as_nested, as_text, as_u32, bytes_piece, encoded_list, flag_digit,
    flag_number, lemma_bytes_piece, lemma_fold_then, lemma_join, lemma_number_pieces,
    lemma_present_pieces, lemma_text_piece, nested_list, no_items, number_piece, option_view,
    present_bytes, present_number, present_text, push_bytes, push_item, push_nested,
    push_nested_list, push_number, push_present_bytes, push_present_number, push_present_text,
    push_text, push_text_list, read_bytes, read_flag, read_nested, read_text, read_u32, text_list,
    text_piece, views,
};
use crate::wire::{lemma_payload_within, models, Field, RawField};

verus! {

/// What constructing an engine instance gave.
#[derive(Clone, Debug, PartialEq, Eq)]
pub enum VmNewResult {
    /// The handle of the new instance. Field 1.
    Pointer(u32),
    /// The engine refused; this is its report. Field 2.
    Failure(Failure),
}

/// What a [`VmNewResult`] holds.
pub enum VmNewResultModel {
    Pointer(u32),
    Failure(FailureModel),
}

impl View for VmNewResult {
    type V = VmNewResultModel;

    open spec fn view(&self) -> VmNewResultModel {
        match self {
            VmNewResult::Pointer(x) => VmNewResultModel::Pointer(*x),
            VmNewResult::Failure(x) => VmNewResultModel::Failure(x@),
        }
    }
}

/// The field that a [`VmNewResult`] is written as, if one is chosen.
pub open spec fn vm_new_result_piece(r: Option<VmNewResultModel>) -> Seq<Field> {
    match r {
        Some(VmNewResultModel::Pointer(x)) => present_number(1, x as u64),
        Some(VmNewResultModel::Failure(x)) => present_bytes(2, encoded::<Failure>(x)),
        None => Seq::empty(),
    }
}

/// Answer to the construction of an engine instance.
#[derive(Clone, Debug, PartialEq, Eq)]
pub struct VmNewReturn {
    /// The arm that applies.
    pub result: Option<VmNewResult>,
}

/// What a [`VmNewReturn`] holds.
pub struct VmNewReturnModel {
    pub result: Option<VmNewResultModel>,
}

impl View for VmNewReturn {
    type V = VmNewReturnModel;

    open spec fn view(&self) -> VmNewReturnModel {
        VmNewReturnModel { result: option_view(self.result) }
    }
}

impl Message for VmNewReturn {
    open spec fn blank() -> VmNewReturnModel {
        VmNewReturnModel { result: None }
    }

    open spec fn step(m: VmNewReturnModel, f: Field) -> Option<VmNewReturnModel> {
        if f.number == 1 {
            match as_u32(f.value) {
                Some(x) => Some(VmNewReturnModel { result: Some(VmNewResultModel::Pointer(x)) }),
                None => None,
            }
        } else if f.number == 2 {
            let base = match m.result {
                Some(VmNewResultModel::Failure(b)) => b,
                _ => Failure::blank(),
            };
            match as_nested::<Failure>(base, f.value) {
                Some(x) => Some(VmNewReturnModel { result: Some(VmNewResultModel::Failure(x)) }),
                None => None,
            }
        } else {
            Some(m)
        }
    }

    open spec fn fields(m: VmNewReturnModel) -> Seq<Field> {
        vm_new_result_piece(m.result)
    }

    open spec fn knows(number: u32) -> bool {
        number == 1 || number == 2
    }

    fn fresh() -> (r: VmNewReturn) {
        VmNewReturn { result: None }
    }

    fn absorb(self, f: &RawField) -> (r: Option<VmNewReturn>) {
        let mut m = self;
        if f.number == 1 {
            match read_u32(&f.value) {
                Some(x) => {
                    m.result = Some(VmNewResult::Pointer(x));
                    Some(m)
                },
                None => None,
            }
        } else if f.number == 2 {
            let base = match m.result.take() {
                Some(VmNewResult::Failure(b)) => b,
                _ => Failure::fresh(),
            };
            match read_nested(base, &f.value) {
                Some(x) => {
                    m.result = Some(VmNewResult::Failure(x));
                    Some(m)
                },
                None => None,
            }
        } else {
            Some(m)
        }
    }

    fn to_fields(&self) -> (r: Vec<RawField>) {
        let mut fs: Vec<RawField> = Vec::new();
        proof {
            assert(models(fs@) =~= Seq::<Field>::empty());
        }
        match &self.result {
            Some(VmNewResult::Pointer(x)) => {
                push_present_number(&mut fs, 1, *x as u64);
            },
            Some(VmNewResult::Failure(x)) => {
                push_nested(&mut fs, 2, x);
            },
            None => {
                proof {
                    assert(models(fs@) + Seq::<Field>::empty() =~= models(fs@));
                }
            },
        }
        proof {
            assert(models(fs@) =~= Self::fields(self@));
        }
        fs
    }

    proof fn lemma_unknown(m: VmNewReturnModel, f: Field) {
    }

    proof fn lemma_restore(m: VmNewReturnModel) {
        let st = |x: VmNewReturnModel, f: Field| Self::step(x, f);
        let b = Self::blank();
        let run0 = Seq::<Field>::empty();
        let part1 = vm_new_result_piece(m.result);
        let run1 = run0 + part1;
        lemma_join(run0, part1);
        assert(run1 =~= part1);
        lemma_fold_short(b, run0, st);
        match m.result {
            Some(VmNewResultModel::Pointer(x)) => {
                lemma_number_pieces(1, x as u64, x);
            },
            Some(VmNewResultModel::Failure(x)) => {
                lemma_present_pieces(2, Seq::empty(), encoded::<Failure>(x));
                lemma_round_trip::<Failure>(x);
            },
            None => {},
        }
        lemma_fold_then(b, run0, b, part1, st);
        assert(fold(b, run1, st) == Some(m));
    }
}

/// The head of the response that the engine wants sent.
#[derive(Clone, Debug, PartialEq, Eq)]
pub struct VmGetResponseHeadReturn {
    /// The status code. Field 1.
    pub status_code: u32,
    /// The response headers. Field 2.
    pub headers: Vec<Header>,
}

/// What a [`VmGetResponseHeadReturn`] holds.
pub struct VmGetResponseHeadReturnModel {
    pub status_code: u32,
    pub headers: Seq<HeaderModel>,
}

impl View for VmGetResponseHeadReturn {
    type V = VmGetResponseHeadReturnModel;

    open spec fn view(&self) -> VmGetResponseHeadReturnModel {
        VmGetResponseHeadReturnModel {
            status_code: self.status_code,
            headers: views(self.headers@),
        }
    }
}

/// What one field does to a [`VmGetResponseHeadReturn`] being read.
pub open spec fn vm_get_response_head_return_step(
    m: VmGetResponseHeadReturnModel,
    f: Field,
) -> Option<VmGetResponseHeadReturnModel> {
    if f.number == 1 {
        match as_u32(f.value) {
            Some(x) => Some(VmGetResponseHeadReturnModel { status_code: x, headers: m.headers }),
            None => None,
        }
    } else if f.number == 2 {
        match as_nested::<Header>(Header::blank(), f.value) {
            Some(x) => Some(
                VmGetResponseHeadReturnModel {
                    status_code: m.status_code,
                    headers: m.headers.push(x),
                },
            ),
            None => None,
        }
    } else {
        Some(m)
    }
}

/// [`vm_get_response_head_return_step`] as a value.
pub open spec fn vm_get_response_head_return_stepper() -> spec_fn(
    VmGetResponseHeadReturnModel,
    Field,
) -> Option<VmGetResponseHeadReturnModel> {
    |x: VmGetResponseHeadReturnModel, f: Field| vm_get_response_head_return_step(x, f)
}

/// Reading the fields of a list of headers appends the list.
proof fn lemma_vm_get_response_head_return_headers(
    base: VmGetResponseHeadReturnModel,
    items: Seq<HeaderModel>,
)
    requires
        forall|i: int|
            0 <= i < items.len() ==> (#[trigger] encoded::<Header>(items[i])).len() <= u64::MAX,
    ensures
        numbered(nested_list(2, encoded_list::<Header>(items))),
        fold(
            base,
            nested_list(2, encoded_list::<Header>(items)),
            vm_get_response_head_return_stepper(),
        ) == Some(
            VmGetResponseHeadReturnModel {
                status_code: base.status_code,
                headers: base.headers + items,
            },
        ),
    decreases items.len(),
{
    let piece = nested_list(2, encoded_list::<Header>(items));
    let st = vm_get_response_head_return_stepper();
    if items.len() == 0 {
        assert(base.headers + items =~= base.headers);
        lemma_fold_short(base, piece, st);
    } else {
        let front = items.drop_last();
        let before = nested_list(2, encoded_list::<Header>(front));
        lemma_vm_get_response_head_return_headers(base, front);
        assert(piece.drop_last() =~= before);
        lemma_round_trip::<Header>(items.last());
        assert((base.headers + front).push(items.last()) =~= base.headers + items);
    }
}

impl Message for VmGetResponseHeadReturn {
    open spec fn blank() -> VmGetResponseHeadReturnModel {
        VmGetResponseHeadReturnModel { status_code: 0, headers: Seq::empty() }
    }

    open spec fn step(
        m: VmGetResponseHeadReturnModel,
        f: Field,
    ) -> Option<VmGetResponseHeadReturnModel> {
        vm_get_response_head_return_step(m, f)
    }

    open spec fn fields(m: VmGetResponseHeadReturnModel) -> Seq<Field> {
        number_piece(1, m.status_code as u64) + nested_list(2, encoded_list::<Header>(m.headers))
    }

    open spec fn knows(number: u32) -> bool {
        number == 1 || number == 2
    }

    fn fresh() -> (r: VmGetResponseHeadReturn) {
        VmGetResponseHeadReturn { status_code: 0, headers: no_items() }
    }

    fn absorb(self, f: &RawField) -> (r: Option<VmGetResponseHeadReturn>) {
        let mut m = self;
        if f.number == 1 {
            match read_u32(&f.value) {
                Some(x) => {
                    m.status_code = x;
                    Some(m)
                },
                None => None,
            }
        } else if f.number == 2 {
            match read_nested(Header::fresh(), &f.value) {
                Some(x) => {
                    push_item(&mut m.headers, x);
                    Some(m)
                },
                None => None,
            }
        } else {
            Some(m)
        }
    }

    fn to_fields(&self) -> (r: Vec<RawField>) {
        let mut fs: Vec<RawField> = Vec::new();
        proof {
            assert(models(fs@) =~= Seq::<Field>::empty());
        }
        push_number(&mut fs, 1, self.status_code as u64);
        push_nested_list(&mut fs, 2, &self.headers);
        proof {
            assert(models(fs@) =~= Self::fields(self@));
        }
        fs
    }

    proof fn lemma_unknown(m: VmGetResponseHeadReturnModel, f: Field) {
    }

    proof fn lemma_restore(m: VmGetResponseHeadReturnModel) {
        let st = |x: VmGetResponseHeadReturnModel, f: Field| Self::step(x, f);
        assert(st =~= vm_get_response_head_return_stepper());
        let b = Self::blank();
        let run0 = Seq::<Field>::empty();
        let part1 = number_piece(1, m.status_code as u64);
        let run1 = run0 + part1;
        lemma_join(run0, part1);
        let part2 = nested_list(2, encoded_list::<Header>(m.headers));
        let run2 = run1 + part2;
        lemma_join(run1, part2);
        assert(run1 =~= part1);
        lemma_fold_short(b, run0, st);
        lemma_number_pieces(1, m.status_code as u64, m.status_code);
        lemma_fold_then(b, run0, b, part1, st);
        let state1 = VmGetResponseHeadReturnModel {
            status_code: m.status_code,
            headers: b.headers,
        };
        assert(fold(b, run1, st) == Some(state1));
        assert forall|i: int| 0 <= i < m.headers.len() implies (#[trigger] encoded::<Header>(
            m.headers[i],
        )).len() <= u64::MAX by {
            lemma_payload_within(part2, i);
        }
        lemma_vm_get_response_head_return_headers(state1, m.headers);
        assert(b.headers + m.headers =~= m.headers);
        lemma_fold_then(b, run1, state1, part2, st);
        assert(fold(b, run2, st) == Some(m));
    }
}

/// What the engine has to send.
#[derive(Clone, Debug, PartialEq, Eq)]
pub enum TakeOutputResult {
    /// Bytes to send. Field 1.
    Bytes(Vec<u8>),
    /// Nothing more will come. Field 2.
    Eof,
}

/// What a [`TakeOutputResult`] holds.
pub enum TakeOutputResultModel {
    Bytes(Seq<u8>),
    Eof,
}

impl View for TakeOutputResult {
    type V = TakeOutputResultModel;

    open spec fn view(&self) -> TakeOutputResultModel {
        match self {
            TakeOutputResult::Bytes(x) => TakeOutputResultModel::Bytes(x@),
            TakeOutputResult::Eof => TakeOutputResultModel::Eof,
        }
    }
}

/// The field that a [`TakeOutputResult`] is written as, if one is chosen.
pub open spec fn take_output_result_piece(r: Option<TakeOutputResultModel>) -> Seq<Field> {
    match r {
        Some(TakeOutputResultModel::Bytes(x)) => present_bytes(1, x),
        Some(TakeOutputResultModel::Eof) => present_bytes(2, Seq::empty()),
        None => Seq::empty(),
    }
}

/// Answer to a request for output.
#[derive(Clone, Debug, PartialEq, Eq)]
pub struct VmTakeOutputReturn {
    /// The arm that applies.
    pub result: Option<TakeOutputResult>,
}

/// What a [`VmTakeOutputReturn`] holds.
pub struct VmTakeOutputReturnModel {
    pub result: Option<TakeOutputResultModel>,
}

impl View for VmTakeOutputReturn {
    type V = VmTakeOutputReturnModel;

    open spec fn view(&self) -> VmTakeOutputReturnModel {
        VmTakeOutputReturnModel { result: option_view(self.result) }
    }
}

impl Message for VmTakeOutputReturn {
    open spec fn blank() -> VmTakeOutputReturnModel {
        VmTakeOutputReturnModel { result: None }
    }

    open spec fn step(m: VmTakeOutputReturnModel, f: Field) -> Option<VmTakeOutputReturnModel> {
        if f.number == 1 {
            match as_bytes(f.value) {
                Some(x) => Some(
                    VmTakeOutputReturnModel { result: Some(TakeOutputResultModel::Bytes(x)) },
                ),
                None => None,
            }
        } else if f.number == 2 {
            match as_nested::<Empty>((), f.value) {
                Some(_) => Some(
                    VmTakeOutputReturnModel { result: Some(TakeOutputResultModel::Eof) },
                ),
                None => None,
            }
        } else {
            Some(m)
        }
    }

    open spec fn fields(m: VmTakeOutputReturnModel) -> Seq<Field> {
        take_output_result_piece(m.result)
    }

    open spec fn knows(number: u32) -> bool {
        number == 1 || number == 2
    }

    fn fresh() -> (r: VmTakeOutputReturn) {
        VmTakeOutputReturn { result: None }
    }

    fn absorb(self, f: &RawField) -> (r: Option<VmTakeOutputReturn>) {
        let mut m = self;
        if f.number == 1 {
            match read_bytes(&f.value) {
                Some(x) => {
                    m.result = Some(TakeOutputResult::Bytes(x));
                    Some(m)
                },
                None => None,
            }
        } else if f.number == 2 {
            match read_nested(Empty::fresh(), &f.value) {
                Some(_) => {
                    m.result = Some(TakeOutputResult::Eof);
                    Some(m)
                },
                None => None,
            }
        } else {
            Some(m)
        }
    }

    fn to_fields(&self) -> (r: Vec<RawField>) {
        let mut fs: Vec<RawField> = Vec::new();
        proof {
            assert(models(fs@) =~= Seq::<Field>::empty());
        }
        match &self.result {
            Some(TakeOutputResult::Bytes(x)) => {
                push_present_bytes(&mut fs, 1, x);
            },
            Some(TakeOutputResult::Eof) => {
                push_present_bytes(&mut fs, 2, &Vec::new());
            },
            None => {
                proof {
                    assert(models(fs@) + Seq::<Field>::empty() =~= models(fs@));
                }
            },
        }
        proof {
            assert(models(fs@) =~= Self::fields(self@));
        }
        fs
    }

    proof fn lemma_unknown(m: VmTakeOutputReturnModel, f: Field) {
    }

    proof fn lemma_restore(m: VmTakeOutputReturnModel) {
        let st = |x: VmTakeOutputReturnModel, f: Field| Self::step(x, f);
        let b = Self::blank();
        let run0 = Seq::<Field>::empty();
        let part1 = take_output_result_piece(m.result);
        let run1 = run0 + part1;
        lemma_join(run0, part1);
        assert(run1 =~= part1);
        lemma_fold_short(b, run0, st);
        match m.result {
            Some(TakeOutputResultModel::Bytes(x)) => {
                lemma_present_pieces(1, Seq::empty(), x);
            },
            Some(TakeOutputResultModel::Eof) => {
                lemma_present_pieces(2, Seq::empty(), Seq::empty());
                lemma_empty_payload();
            },
            None => {},
        }
        lemma_fold_then(b, run0, b, part1, st);
        assert(fold(b, run1, st) == Some(m));
    }
}

/// Whether handler code may start.
#[derive(Clone, Debug, PartialEq, Eq)]
pub enum ReadyResult {
    /// Whether the engine has read enough input. Field 1.
    Ready(bool),
    /// The engine refused; this is its report. Field 2.
    Failure(Failure),
}

/// What a [`ReadyResult`] holds.
pub enum ReadyResultModel {
    Ready(bool),
    Failure(FailureModel),
}

impl View for ReadyResult {
    type V = ReadyResultModel;

    open spec fn view(&self) -> ReadyResultModel {
        match self {
            ReadyResult::Ready(x) => ReadyResultModel::Ready(*x),
            ReadyResult::Failure(x) => ReadyResultModel::Failure(x@),
        }
    }
}

/// The field that a [`ReadyResult`] is written as, if one is chosen.
pub open spec fn ready_result_piece(r: Option<ReadyResultModel>) -> Seq<Field> {
    match r {
        Some(ReadyResultModel::Ready(x)) => present_number(1, flag_number(x)),
        Some(ReadyResultModel::Failure(x)) => present_bytes(2, encoded::<Failure>(x)),
        None => Seq::empty(),
    }
}

/// Answer to the question whether handler code may start.
#[derive(Clone, Debug, PartialEq, Eq)]
pub struct VmIsReadyToExecuteReturn {
    /// The arm that applies.
    pub result: Option<ReadyResult>,
}

/// What a [`VmIsReadyToExecuteReturn`] holds.
pub struct VmIsReadyToExecuteReturnModel {
    pub result: Option<ReadyResultModel>,
}

impl View for VmIsReadyToExecuteReturn {
    type V = VmIsReadyToExecuteReturnModel;

    open spec fn view(&self) -> VmIsReadyToExecuteReturnModel {
        VmIsReadyToExecuteReturnModel { result: option_view(self.result) }
    }
}

impl Message for VmIsReadyToExecuteReturn {
    open spec fn blank() -> VmIsReadyToExecuteReturnModel {
        VmIsReadyToExecuteReturnModel { result: None }
    }

    open spec fn step(
        m: VmIsReadyToExecuteReturnModel,
        f: Field,
    ) -> Option<VmIsReadyToExecuteReturnModel> {
        if f.number == 1 {
            match as_flag(f.value) {
                Some(x) => Some(
                    VmIsReadyToExecuteReturnModel { result: Some(ReadyResultModel::Ready(x)) },
                ),
                None => None,
            }
        } else if f.number == 2 {
            let base = match m.result {
                Some(ReadyResultModel::Failure(b)) => b,
                _ => Failure::blank(),
            };
            match as_nested::<Failure>(base, f.value) {
                Some(x) => Some(
                    VmIsReadyToExecuteReturnModel { result: Some(ReadyResultModel::Failure(x)) },
                ),
                None => None,
            }
        } else {
            Some(m)
        }
    }

    open spec fn fields(m: VmIsReadyToExecuteReturnModel) -> Seq<Field> {
        ready_result_piece(m.result)
    }

    open spec fn knows(number: u32) -> bool {
        number == 1 || number == 2
    }

    fn fresh() -> (r: VmIsReadyToExecuteReturn) {
        VmIsReadyToExecuteReturn { result: None }
    }

    fn absorb(self, f: &RawField) -> (r: Option<VmIsReadyToExecuteReturn>) {
        let mut m = self;
        if f.number == 1 {
            match read_flag(&f.value) {
                Some(x) => {
                    m.result = Some(ReadyResult::Ready(x));
                    Some(m)
                },
                None => None,
            }
        } else if f.number == 2 {
            let base = match m.result.take() {
                Some(ReadyResult::Failure(b)) => b,
                _ => Failure::fresh(),
            };
            match read_nested(base, &f.value) {
                Some(x) => {
                    m.result = Some(ReadyResult::Failure(x));
                    Some(m)
                },
                None => None,
            }
        } else {
            Some(m)
        }
    }

    fn to_fields(&self) -> (r: Vec<RawField>) {
        let mut fs: Vec<RawField> = Vec::new();
        proof {
            assert(models(fs@) =~= Seq::<Field>::empty());
        }
        match &self.result {
            Some(ReadyResult::Ready(x)) => {
                push_present_number(&mut fs, 1, flag_digit(*x));
            },
            Some(ReadyResult::Failure(x)) => {
                push_nested(&mut fs, 2, x);
            },
            None => {
                proof {
                    assert(models(fs@) + Seq::<Field>::empty() =~= models(fs@));
                }
            },
        }
        proof {
            assert(models(fs@) =~= Self::fields(self@));
        }
        fs
    }

    proof fn lemma_unknown(m: VmIsReadyToExecuteReturnModel, f: Field) {
    }

    proof fn lemma_restore(m: VmIsReadyToExecuteReturnModel) {
        let st = |x: VmIsReadyToExecuteReturnModel, f: Field| Self::step(x, f);
        let b = Self::blank();
        let run0 = Seq::<Field>::empty();
        let part1 = ready_result_piece(m.result);
        let run1 = run0 + part1;
        lemma_join(run0, part1);
        assert(run1 =~= part1);
        lemma_fold_short(b, run0, st);
        match m.result {
            Some(ReadyResultModel::Ready(x)) => {
                lemma_number_pieces(1, flag_number(x), 0);
            },
            Some(ReadyResultModel::Failure(x)) => {
                lemma_present_pieces(2, Seq::empty(), encoded::<Failure>(x));
                lemma_round_trip::<Failure>(x);
            },
            None => {},
        }
        lemma_fold_then(b, run0, b, part1, st);
        assert(fold(b, run1, st) == Some(m));
    }
}

/// What one step of the engine came to. Suspension is a state of its own, and
/// no failure.
#[derive(Clone, Debug, PartialEq, Eq)]
pub enum DoProgressResult {
    /// One of the awaited notifications has a value. Field 1.
    AnyCompleted,
    /// The engine needs more input. Field 2.
    ReadFromInput,
    /// The invocation was asked to cancel. Field 3.
    CancelSignalReceived,
    /// A run block that was handed out has not reported yet. Field 4.
    WaitingPendingRun,
    /// The caller must execute this run block and report how it ended. Field 5.
    ExecuteRun(u32),
    /// No progress is possible here; the invocation must be suspended. Field 6.
    Suspended,
    /// The engine refused; this is its report. Field 7.
    Failure(Failure),
}

/// What a [`DoProgressResult`] holds.
pub enum DoProgressResultModel {
    AnyCompleted,
    ReadFromInput,
    CancelSignalReceived,
    WaitingPendingRun,
    ExecuteRun(u32),
    Suspended,
    Failure(FailureModel),
}

impl View for DoProgressResult {
    type V = DoProgressResultModel;

    open spec fn view(&self) -> DoProgressResultModel {
        match self {
            DoProgressResult::AnyCompleted => DoProgressResultModel::AnyCompleted,
            DoProgressResult::ReadFromInput => DoProgressResultModel::ReadFromInput,
            DoProgressResult::CancelSignalReceived => DoProgressResultModel::CancelSignalReceived,
            DoProgressResult::WaitingPendingRun => DoProgressResultModel::WaitingPendingRun,
            DoProgressResult::ExecuteRun(x) => DoProgressResultModel::ExecuteRun(*x),
            DoProgressResult::Suspended => DoProgressResultModel::Suspended,
            DoProgressResult::Failure(x) => DoProgressResultModel::Failure(x@),
        }
    }
}

/// The field that a [`DoProgressResult`] is written as, if one is chosen.
pub open spec fn do_progress_result_piece(r: Option<DoProgressResultModel>) -> Seq<Field> {
    match r {
        Some(DoProgressResultModel::AnyCompleted) => present_bytes(1, Seq::empty()),
        Some(DoProgressResultModel::ReadFromInput) => present_bytes(2, Seq::empty()),
        Some(DoProgressResultModel::CancelSignalReceived) => present_bytes(3, Seq::empty()),
        Some(DoProgressResultModel::WaitingPendingRun) => present_bytes(4, Seq::empty()),
        Some(DoProgressResultModel::ExecuteRun(x)) => present_number(5, x as u64),
        Some(DoProgressResultModel::Suspended) => present_bytes(6, Seq::empty()),
        Some(DoProgressResultModel::Failure(x)) => present_bytes(7, encoded::<Failure>(x)),
        None => Seq::empty(),
    }
}

/// Answer to a request to advance.
#[derive(Clone, Debug, PartialEq, Eq)]
pub struct VmDoProgressReturn {
    /// The arm that applies.
    pub result: Option<DoProgressResult>,
}

/// What a [`VmDoProgressReturn`] holds.
pub struct VmDoProgressReturnModel {
    pub result: Option<DoProgressResultModel>,
}

impl View for VmDoProgressReturn {
    type V = VmDoProgressReturnModel;

    open spec fn view(&self) -> VmDoProgressReturnModel {
        VmDoProgressReturnModel { result: option_view(self.result) }
    }
}

impl Message for VmDoProgressReturn {
    open spec fn blank() -> VmDoProgressReturnModel {
        VmDoProgressReturnModel { result: None }
    }

    open spec fn step(m: VmDoProgressReturnModel, f: Field) -> Option<VmDoProgressReturnModel> {
        if f.number == 1 {
            match as_nested::<Empty>((), f.value) {
                Some(_) => Some(
                    VmDoProgressReturnModel { result: Some(DoProgressResultModel::AnyCompleted) },
                ),
                None => None,
            }
        } else if f.number == 2 {
            match as_nested::<Empty>((), f.value) {
                Some(_) => Some(
                    VmDoProgressReturnModel { result: Some(DoProgressResultModel::ReadFromInput) },
                ),
                None => None,
            }
        } else if f.number == 3 {
            match as_nested::<Empty>((), f.value) {
                Some(_) => Some(
                    VmDoProgressReturnModel {
                        result: Some(DoProgressResultModel::CancelSignalReceived),
                    },
                ),
                None => None,
            }
        } else if f.number == 4 {
            match as_nested::<Empty>((), f.value) {
                Some(_) => Some(
                    VmDoProgressReturnModel {
                        result: Some(DoProgressResultModel::WaitingPendingRun),
                    },
                ),
                None => None,
            }
        } else if f.number == 5 {
            match as_u32(f.value) {
                Some(x) => Some(
                    VmDoProgressReturnModel { result: Some(DoProgressResultModel::ExecuteRun(x)) },
                ),
                None => None,
            }
        } else if f.number == 6 {
            match as_nested::<Empty>((), f.value) {
                Some(_) => Some(
                    VmDoProgressReturnModel { result: Some(DoProgressResultModel::Suspended) },
                ),
                None => None,
            }
        } else if f.number == 7 {
            let base = match m.result {
                Some(DoProgressResultModel::Failure(b)) => b,
                _ => Failure::blank(),
            };
            match as_nested::<Failure>(base, f.value) {
                Some(x) => Some(
                    VmDoProgressReturnModel { result: Some(DoProgressResultModel::Failure(x)) },
                ),
                None => None,
            }
        } else {
            Some(m)
        }
    }

    open spec fn fields(m: VmDoProgressReturnModel) -> Seq<Field> {
        do_progress_result_piece(m.result)
    }

    open spec fn knows(number: u32) -> bool {
        number == 1
            || number == 2
            || number == 3
            || number == 4
            || number == 5
            || number == 6
            || number == 7
    }

    fn fresh() -> (r: VmDoProgressReturn) {
        VmDoProgressReturn { result: None }
    }

    fn absorb(self, f: &RawField) -> (r: Option<VmDoProgressReturn>) {
        let mut m = self;
        if f.number == 1 {
            match read_nested(Empty::fresh(), &f.value) {
                Some(_) => {
                    m.result = Some(DoProgressResult::AnyCompleted);
                    Some(m)
                },
                None => None,
            }
        } else if f.number == 2 {
            match read_nested(Empty::fresh(), &f.value) {
                Some(_) => {
                    m.result = Some(DoProgressResult::ReadFromInput);
                    Some(m)
                },
                None => None,
            }
        } else if f.number == 3 {
            match read_nested(Empty::fresh(), &f.value) {
                Some(_) => {
                    m.result = Some(DoProgressResult::CancelSignalReceived);
                    Some(m)
                },
                None => None,
            }
        } else if f.number == 4 {
            match read_nested(Empty::fresh(), &f.value) {
                Some(_) => {
                    m.result = Some(DoProgressResult::WaitingPendingRun);
                    Some(m)
                },
                None => None,
            }
        } else if f.number == 5 {
            match read_u32(&f.value) {
                Some(x) => {
                    m.result = Some(DoProgressResult::ExecuteRun(x));
                    Some(m)
                },
                None => None,
            }
        } else if f.number == 6 {
            match read_nested(Empty::fresh(), &f.value) {
                Some(_) => {
                    m.result = Some(DoProgressResult::Suspended);
                    Some(m)
                },
                None => None,
            }
        } else if f.number == 7 {
            let base = match m.result.take() {
                Some(DoProgressResult::Failure(b)) => b,
                _ => Failure::fresh(),
            };
            match read_nested(base, &f.value) {
                Some(x) => {
                    m.result = Some(DoProgressResult::Failure(x));
                    Some(m)
                },
                None => None,
            }
        } else {
            Some(m)
        }
    }

    fn to_fields(&self) -> (r: Vec<RawField>) {
        let mut fs: Vec<RawField> = Vec::new();
        proof {
            assert(models(fs@) =~= Seq::<Field>::empty());
        }
        match &self.result {
            Some(DoProgressResult::AnyCompleted) => {
                push_present_bytes(&mut fs, 1, &Vec::new());
            },
            Some(DoProgressResult::ReadFromInput) => {
                push_present_bytes(&mut fs, 2, &Vec::new());
            },
            Some(DoProgressResult::CancelSignalReceived) => {
                push_present_bytes(&mut fs, 3, &Vec::new());
            },
            Some(DoProgressResult::WaitingPendingRun) => {
                push_present_bytes(&mut fs, 4, &Vec::new());
            },
            Some(DoProgressResult::ExecuteRun(x)) => {
                push_present_number(&mut fs, 5, *x as u64);
            },
            Some(DoProgressResult::Suspended) => {
                push_present_bytes(&mut fs, 6, &Vec::new());
            },
            Some(DoProgressResult::Failure(x)) => {
                push_nested(&mut fs, 7, x);
            },
            None => {
                proof {
                    assert(models(fs@) + Seq::<Field>::empty() =~= models(fs@));
                }
            },
        }
        proof {
            assert(models(fs@) =~= Self::fields(self@));
        }
        fs
    }

    proof fn lemma_unknown(m: VmDoProgressReturnModel, f: Field) {
    }

    proof fn lemma_restore(m: VmDoProgressReturnModel) {
        let st = |x: VmDoProgressReturnModel, f: Field| Self::step(x, f);
        let b = Self::blank();
        let run0 = Seq::<Field>::empty();
        let part1 = do_progress_result_piece(m.result);
        let run1 = run0 + part1;
        lemma_join(run0, part1);
        assert(run1 =~= part1);
        lemma_fold_short(b, run0, st);
        match m.result {
            Some(DoProgressResultModel::AnyCompleted) => {
                lemma_present_pieces(1, Seq::empty(), Seq::empty());
                lemma_empty_payload();
            },
            Some(DoProgressResultModel::ReadFromInput) => {
                lemma_present_pieces(2, Seq::empty(), Seq::empty());
                lemma_empty_payload();
            },
            Some(DoProgressResultModel::CancelSignalReceived) => {
                lemma_present_pieces(3, Seq::empty(), Seq::empty());
                lemma_empty_payload();
            },
            Some(DoProgressResultModel::WaitingPendingRun) => {
                lemma_present_pieces(4, Seq::empty(), Seq::empty());
                lemma_empty_payload();
            },
            Some(DoProgressResultModel::ExecuteRun(x)) => {
                lemma_number_pieces(5, x as u64, x);
            },
            Some(DoProgressResultModel::Suspended) => {
                lemma_present_pieces(6, Seq::empty(), Seq::empty());
                lemma_empty_payload();
            },
            Some(DoProgressResultModel::Failure(x)) => {
                lemma_present_pieces(7, Seq::empty(), encoded::<Failure>(x));
                lemma_round_trip::<Failure>(x);
            },
            None => {},
        }
        lemma_fold_then(b, run0, b, part1, st);
        assert(fold(b, run1, st) == Some(m));
    }
}

/// The keys of the state entries.
#[derive(Clone, Debug, PartialEq, Eq)]
pub struct StateKeys {
    /// The keys. Field 1.
    pub keys: Vec<String>,
}

/// What a [`StateKeys`] holds.
pub struct StateKeysModel {
    pub keys: Seq<Seq<char>>,
}

impl View for StateKeys {
    type V = StateKeysModel;

    open spec fn view(&self) -> StateKeysModel {
        StateKeysModel { keys: views(self.keys@) }
    }
}

/// What one field does to a [`StateKeys`] being read.
pub open spec fn state_keys_step(m: StateKeysModel, f: Field) -> Option<StateKeysModel> {
    if f.number == 1 {
        match as_text(f.value) {
            Some(x) => Some(StateKeysModel { keys: m.keys.push(x) }),
            None => None,
        }
    } else {
        Some(m)
    }
}

/// [`state_keys_step`] as a value.
pub open spec fn state_keys_stepper() -> spec_fn(StateKeysModel, Field) -> Option<StateKeysModel> {
    |x: StateKeysModel, f: Field| state_keys_step(x, f)
}

/// Reading the fields of a list of keys appends the list.
proof fn lemma_state_keys_keys(base: StateKeysModel, items: Seq<Seq<char>>)
    ensures
        numbered(text_list(1, items)),
        fold(base, text_list(1, items), state_keys_stepper()) == Some(
            StateKeysModel { keys: base.keys + items },
        ),
    decreases items.len(),
{
    let piece = text_list(1, items);
    let st = state_keys_stepper();
    if items.len() == 0 {
        assert(base.keys + items =~= base.keys);
        lemma_fold_short(base, piece, st);
    } else {
        let front = items.drop_last();
        let before = text_list(1, front);
        lemma_state_keys_keys(base, front);
        assert(piece.drop_last() =~= before);
        lemma_present_pieces(1, items.last(), Seq::empty());
        assert((base.keys + front).push(items.last()) =~= base.keys + items);
    }
}

impl Message for StateKeys {
    open spec fn blank() -> StateKeysModel {
        StateKeysModel { keys: Seq::empty() }
    }

    open spec fn step(m: StateKeysModel, f: Field) -> Option<StateKeysModel> {
        state_keys_step(m, f)
    }

    open spec fn fields(m: StateKeysModel) -> Seq<Field> {
        text_list(1, m.keys)
    }

    open spec fn knows(number: u32) -> bool {
        number == 1
    }

    fn fresh() -> (r: StateKeys) {
        StateKeys { keys: no_items() }
    }

    fn absorb(self, f: &RawField) -> (r: Option<StateKeys>) {
        let mut m = self;
        if f.number == 1 {
            match read_text(&f.value) {
                Some(x) => {
                    push_item(&mut m.keys, x);
                    Some(m)
                },
                None => None,
            }
        } else {
            Some(m)
        }
    }

    fn to_fields(&self) -> (r: Vec<RawField>) {
        let mut fs: Vec<RawField> = Vec::new();
        proof {
            assert(models(fs@) =~= Seq::<Field>::empty());
        }
        push_text_list(&mut fs, 1, &self.keys);
        proof {
            assert(models(fs@) =~= Self::fields(self@));
        }
        fs
    }

    proof fn lemma_unknown(m: StateKeysModel, f: Field) {
    }

    proof fn lemma_restore(m: StateKeysModel) {
        let st = |x: StateKeysModel, f: Field| Self::step(x, f);
        assert(st =~= state_keys_stepper());
        let b = Self::blank();
        let run0 = Seq::<Field>::empty();
        let part1 = text_list(1, m.keys);
        let run1 = run0 + part1;
        lemma_join(run0, part1);
        assert(run1 =~= part1);
        lemma_fold_short(b, run0, st);
        lemma_state_keys_keys(b, m.keys);
        assert(b.keys + m.keys =~= m.keys);
        lemma_fold_then(b, run0, b, part1, st);
        assert(fold(b, run1, st) == Some(m));
    }
}

/// The kinds of value that a notification completes with.
#[derive(Clone, Debug, PartialEq, Eq)]
pub enum ValueKind {
    /// Success without a payload. Field 1.
    Void,
    /// Success with a payload. Field 2.
    Success(Vec<u8>),
    /// A failure for good. Field 3.
    Failure(Failure),
    /// The keys of the state entries. Field 4.
    StateKeys(StateKeys),
    /// The identifier of an invocation. Field 5.
    InvocationId(String),
}

/// What a [`ValueKind`] holds.
pub enum ValueKindModel {
    Void,
    Success(Seq<u8>),
    Failure(FailureModel),
    StateKeys(StateKeysModel),
    InvocationId(Seq<char>),
}

impl View for ValueKind {
    type V = ValueKindModel;

    open spec fn view(&self) -> ValueKindModel {
        match self {
            ValueKind::Void => ValueKindModel::Void,
            ValueKind::Success(x) => ValueKindModel::Success(x@),
            ValueKind::Failure(x) => ValueKindModel::Failure(x@),
            ValueKind::StateKeys(x) => ValueKindModel::StateKeys(x@),
            ValueKind::InvocationId(x) => ValueKindModel::InvocationId(x@),
        }
    }
}

/// The field that a [`ValueKind`] is written as, if one is chosen.
pub open spec fn value_kind_piece(r: Option<ValueKindModel>) -> Seq<Field> {
    match r {
        Some(ValueKindModel::Void) => present_bytes(1, Seq::empty()),
        Some(ValueKindModel::Success(x)) => present_bytes(2, x),
        Some(ValueKindModel::Failure(x)) => present_bytes(3, encoded::<Failure>(x)),
        Some(ValueKindModel::StateKeys(x)) => present_bytes(4, encoded::<StateKeys>(x)),
        Some(ValueKindModel::InvocationId(x)) => present_text(5, x),
        None => Seq::empty(),
    }
}

/// The value of a completed notification, as a message.
#[derive(Clone, Debug, PartialEq, Eq)]
pub struct TakenValue {
    /// The kind that applies.
    pub value: Option<ValueKind>,
}

/// What a [`TakenValue`] holds.
pub struct TakenValueModel {
    pub value: Option<ValueKindModel>,
}

impl View for TakenValue {
    type V = TakenValueModel;

    open spec fn view(&self) -> TakenValueModel {
        TakenValueModel { value: option_view(self.value) }
    }
}

impl Message for TakenValue {
    open spec fn blank() -> TakenValueModel {
        TakenValueModel { value: None }
    }

    open spec fn step(m: TakenValueModel, f: Field) -> Option<TakenValueModel> {
        if f.number == 1 {
            match as_nested::<Empty>((), f.value) {
                Some(_) => Some(TakenValueModel { value: Some(ValueKindModel::Void) }),
                None => None,
            }
        } else if f.number == 2 {
            match as_bytes(f.value) {
                Some(x) => Some(TakenValueModel { value: Some(ValueKindModel::Success(x)) }),
                None => None,
            }
        } else if f.number == 3 {
            let base = match m.value {
                Some(ValueKindModel::Failure(b)) => b,
                _ => Failure::blank(),
            };
            match as_nested::<Failure>(base, f.value) {
                Some(x) => Some(TakenValueModel { value: Some(ValueKindModel::Failure(x)) }),
                None => None,
            }
        } else if f.number == 4 {
            let base = match m.value {
                Some(ValueKindModel::StateKeys(b)) => b,
                _ => StateKeys::blank(),
            };
            match as_nested::<StateKeys>(base, f.value) {
                Some(x) => Some(TakenValueModel { value: Some(ValueKindModel::StateKeys(x)) }),
                None => None,
            }
        } else if f.number == 5 {
            match as_text(f.value) {
                Some(x) => Some(TakenValueModel { value: Some(ValueKindModel::InvocationId(x)) }),
                None => None,
            }
        } else {
            Some(m)
        }
    }

    open spec fn fields(m: TakenValueModel) -> Seq<Field> {
        value_kind_piece(m.value)
    }

    open spec fn knows(number: u32) -> bool {
        number == 1 || number == 2 || number == 3 || number == 4 || number == 5
    }

    fn fresh() -> (r: TakenValue) {
        TakenValue { value: None }
    }

    fn absorb(self, f: &RawField) -> (r: Option<TakenValue>) {
        let mut m = self;
        if f.number == 1 {
            match read_nested(Empty::fresh(), &f.value) {
                Some(_) => {
                    m.value = Some(ValueKind::Void);
                    Some(m)
                },
                None => None,
            }
        } else if f.number == 2 {
            match read_bytes(&f.value) {
                Some(x) => {
                    m.value = Some(ValueKind::Success(x));
                    Some(m)
                },
                None => None,
            }
        } else if f.number == 3 {
            let base = match m.value.take() {
                Some(ValueKind::Failure(b)) => b,
                _ => Failure::fresh(),
            };
            match read_nested(base, &f.value) {
                Some(x) => {
                    m.value = Some(ValueKind::Failure(x));
                    Some(m)
                },
                None => None,
            }
        } else if f.number == 4 {
            let base = match m.value.take() {
                Some(ValueKind::StateKeys(b)) => b,
                _ => StateKeys::fresh(),
            };
            match read_nested(base, &f.value) {
                Some(x) => {
                    m.value = Some(ValueKind::StateKeys(x));
                    Some(m)
                },
                None => None,
            }
        } else if f.number == 5 {
            match read_text(&f.value) {
                Some(x) => {
                    m.value = Some(ValueKind::InvocationId(x));
                    Some(m)
                },
                None => None,
            }
        } else {
            Some(m)
        }
    }

    fn to_fields(&self) -> (r: Vec<RawField>) {
        let mut fs: Vec<RawField> = Vec::new();
        proof {
            assert(models(fs@) =~= Seq::<Field>::empty());
        }
        match &self.value {
            Some(ValueKind::Void) => {
                push_present_bytes(&mut fs, 1, &Vec::new());
            },
            Some(ValueKind::Success(x)) => {
                push_present_bytes(&mut fs, 2, x);
            },
            Some(ValueKind::Failure(x)) => {
                push_nested(&mut fs, 3, x);
            },
            Some(ValueKind::StateKeys(x)) => {
                push_nested(&mut fs, 4, x);
            },
            Some(ValueKind::InvocationId(x)) => {
                push_present_text(&mut fs, 5, x);
            },
            None => {
                proof {
                    assert(models(fs@) + Seq::<Field>::empty() =~= models(fs@));
                }
            },
        }
        proof {
            assert(models(fs@) =~= Self::fields(self@));
        }
        fs
    }

    proof fn lemma_unknown(m: TakenValueModel, f: Field) {
    }

    proof fn lemma_restore(m: TakenValueModel) {
        let st = |x: TakenValueModel, f: Field| Self::step(x, f);
        let b = Self::blank();
        let run0 = Seq::<Field>::empty();
        let part1 = value_kind_piece(m.value);
        let run1 = run0 + part1;
        lemma_join(run0, part1);
        assert(run1 =~= part1);
        lemma_fold_short(b, run0, st);
        match m.value {
            Some(ValueKindModel::Void) => {
                lemma_present_pieces(1, Seq::empty(), Seq::empty());
                lemma_empty_payload();
            },
            Some(ValueKindModel::Success(x)) => {
                lemma_present_pieces(2, Seq::empty(), x);
            },
            Some(ValueKindModel::Failure(x)) => {
                lemma_present_pieces(3, Seq::empty(), encoded::<Failure>(x));
                lemma_round_trip::<Failure>(x);
            },
            Some(ValueKindModel::StateKeys(x)) => {
                lemma_present_pieces(4, Seq::empty(), encoded::<StateKeys>(x));
                lemma_round_trip::<StateKeys>(x);
            },
            Some(ValueKindModel::InvocationId(x)) => {
                lemma_present_pieces(5, x, Seq::empty());
            },
            None => {},
        }
        lemma_fold_then(b, run0, b, part1, st);
        assert(fold(b, run1, st) == Some(m));
    }
}

/// What asking for a notification's value came to. Not ready and suspended are
/// states of their own, and no failures.
#[derive(Clone, Debug, PartialEq, Eq)]
pub enum TakeNotificationResult {
    /// The notification has no value yet. Field 1.
    NotReady,
    /// The value. Field 2.
    Value(TakenValue),
    /// No progress is possible here; the invocation must be suspended. Field 3.
    Suspended,
    /// The engine refused; this is its report. Field 4.
    Failure(Failure),
}

/// What a [`TakeNotificationResult`] holds.
pub enum TakeNotificationResultModel {
    NotReady,
    Value(TakenValueModel),
    Suspended,
    Failure(FailureModel),
}

impl View for TakeNotificationResult {
    type V = TakeNotificationResultModel;

    open spec fn view(&self) -> TakeNotificationResultModel {
        match self {
            TakeNotificationResult::NotReady => TakeNotificationResultModel::NotReady,
            TakeNotificationResult::Value(x) => TakeNotificationResultModel::Value(x@),
            TakeNotificationResult::Suspended => TakeNotificationResultModel::Suspended,
            TakeNotificationResult::Failure(x) => TakeNotificationResultModel::Failure(x@),
        }
    }
}

/// The field that a [`TakeNotificationResult`] is written as, if one is chosen.
pub open spec fn take_notification_result_piece(
    r: Option<TakeNotificationResultModel>,
) -> Seq<Field> {
    match r {
        Some(TakeNotificationResultModel::NotReady) => present_bytes(1, Seq::empty()),
        Some(TakeNotificationResultModel::Value(x)) => present_bytes(2, encoded::<TakenValue>(x)),
        Some(TakeNotificationResultModel::Suspended) => present_bytes(3, Seq::empty()),
        Some(TakeNotificationResultModel::Failure(x)) => present_bytes(4, encoded::<Failure>(x)),
        None => Seq::empty(),
    }
}

/// Answer to a request for the value of a notification.
#[derive(Clone, Debug, PartialEq, Eq)]
pub struct VmTakeNotificationReturn {
    /// The arm that applies.
    pub result: Option<TakeNotificationResult>,
}

/// What a [`VmTakeNotificationReturn`] holds.
pub struct VmTakeNotificationReturnModel {
    pub result: Option<TakeNotificationResultModel>,
}

impl View for VmTakeNotificationReturn {
    type V = VmTakeNotificationReturnModel;

    open spec fn view(&self) -> VmTakeNotificationReturnModel {
        VmTakeNotificationReturnModel { result: option_view(self.result) }
    }
}

impl Message for VmTakeNotificationReturn {
    open spec fn blank() -> VmTakeNotificationReturnModel {
        VmTakeNotificationReturnModel { result: None }
    }

    open spec fn step(
        m: VmTakeNotificationReturnModel,
        f: Field,
    ) -> Option<VmTakeNotificationReturnModel> {
        if f.number == 1 {
            match as_nested::<Empty>((), f.value) {
                Some(_) => Some(
                    VmTakeNotificationReturnModel {
                        result: Some(TakeNotificationResultModel::NotReady),
                    },
                ),
                None => None,
            }
        } else if f.number == 2 {
            let base = match m.result {
                Some(TakeNotificationResultModel::Value(b)) => b,
                _ => TakenValue::blank(),
            };
            match as_nested::<TakenValue>(base, f.value) {
                Some(x) => Some(
                    VmTakeNotificationReturnModel {
                        result: Some(TakeNotificationResultModel::Value(x)),
                    },
                ),
                None => None,
            }
        } else if f.number == 3 {
            match as_nested::<Empty>((), f.value) {
                Some(_) => Some(
                    VmTakeNotificationReturnModel {
                        result: Some(TakeNotificationResultModel::Suspended),
                    },
                ),
                None => None,
            }
        } else if f.number == 4 {
            let base = match m.result {
                Some(TakeNotificationResultModel::Failure(b)) => b,
                _ => Failure::blank(),
            };
            match as_nested::<Failure>(base, f.value) {
                Some(x) => Some(
                    VmTakeNotificationReturnModel {
                        result: Some(TakeNotificationResultModel::Failure(x)),
                    },
                ),
                None => None,
            }
        } else {
            Some(m)
        }
    }

    open spec fn fields(m: VmTakeNotificationReturnModel) -> Seq<Field> {
        take_notification_result_piece(m.result)
    }

    open spec fn knows(number: u32) -> bool {
        number == 1 || number == 2 || number == 3 || number == 4
    }

    fn fresh() -> (r: VmTakeNotificationReturn) {
        VmTakeNotificationReturn { result: None }
    }

    fn absorb(self, f: &RawField) -> (r: Option<VmTakeNotificationReturn>) {
        let mut m = self;
        if f.number == 1 {
            match read_nested(Empty::fresh(), &f.value) {
                Some(_) => {
                    m.result = Some(TakeNotificationResult::NotReady);
                    Some(m)
                },
                None => None,
            }
        } else if f.number == 2 {
            let base = match m.result.take() {
                Some(TakeNotificationResult::Value(b)) => b,
                _ => TakenValue::fresh(),
            };
            match read_nested(base, &f.value) {
                Some(x) => {
                    m.result = Some(TakeNotificationResult::Value(x));
                    Some(m)
                },
                None => None,
            }
        } else if f.number == 3 {
            match read_nested(Empty::fresh(), &f.value) {
                Some(_) => {
                    m.result = Some(TakeNotificationResult::Suspended);
                    Some(m)
                },
                None => None,
            }
        } else if f.number == 4 {
            let base = match m.result.take() {
                Some(TakeNotificationResult::Failure(b)) => b,
                _ => Failure::fresh(),
            };
            match read_nested(base, &f.value) {
                Some(x) => {
                    m.result = Some(TakeNotificationResult::Failure(x));
                    Some(m)
                },
                None => None,
            }
        } else {
            Some(m)
        }
    }

    fn to_fields(&self) -> (r: Vec<RawField>) {
        let mut fs: Vec<RawField> = Vec::new();
        proof {
            assert(models(fs@) =~= Seq::<Field>::empty());
        }
        match &self.result {
            Some(TakeNotificationResult::NotReady) => {
                push_present_bytes(&mut fs, 1, &Vec::new());
            },
            Some(TakeNotificationResult::Value(x)) => {
                push_nested(&mut fs, 2, x);
            },
            Some(TakeNotificationResult::Suspended) => {
                push_present_bytes(&mut fs, 3, &Vec::new());
            },
            Some(TakeNotificationResult::Failure(x)) => {
                push_nested(&mut fs, 4, x);
            },
            None => {
                proof {
                    assert(models(fs@) + Seq::<Field>::empty() =~= models(fs@));
                }
            },
        }
        proof {
            assert(models(fs@) =~= Self::fields(self@));
        }
        fs
    }

    proof fn lemma_unknown(m: VmTakeNotificationReturnModel, f: Field) {
    }

    proof fn lemma_restore(m: VmTakeNotificationReturnModel) {
        let st = |x: VmTakeNotificationReturnModel, f: Field| Self::step(x, f);
        let b = Self::blank();
        let run0 = Seq::<Field>::empty();
        let part1 = take_notification_result_piece(m.result);
        let run1 = run0 + part1;
        lemma_join(run0, part1);
        assert(run1 =~= part1);
        lemma_fold_short(b, run0, st);
        match m.result {
            Some(TakeNotificationResultModel::NotReady) => {
                lemma_present_pieces(1, Seq::empty(), Seq::empty());
                lemma_empty_payload();
            },
            Some(TakeNotificationResultModel::Value(x)) => {
                lemma_present_pieces(2, Seq::empty(), encoded::<TakenValue>(x));
                lemma_round_trip::<TakenValue>(x);
            },
            Some(TakeNotificationResultModel::Suspended) => {
                lemma_present_pieces(3, Seq::empty(), Seq::empty());
                lemma_empty_payload();
            },
            Some(TakeNotificationResultModel::Failure(x)) => {
                lemma_present_pieces(4, Seq::empty(), encoded::<Failure>(x));
                lemma_round_trip::<Failure>(x);
            },
            None => {},
        }
        lemma_fold_then(b, run0, b, part1, st);
        assert(fold(b, run1, st) == Some(m));
    }
}

/// The input of an invocation, as a message.
#[derive(Clone, Debug, PartialEq, Eq)]
pub struct InputReturn {
    /// The identifier of the invocation. Field 1.
    pub invocation_id: String,
    /// The routing key; empty for a service without keys. Field 2.
    pub key: String,
    /// The headers of the invocation. Field 3.
    pub headers: Vec<Header>,
    /// The input payload. Field 4.
    pub input: Vec<u8>,
}

/// What a [`InputReturn`] holds.
pub struct InputReturnModel {
    pub invocation_id: Seq<char>,
    pub key: Seq<char>,
    pub headers: Seq<HeaderModel>,
    pub input: Seq<u8>,
}

impl View for InputReturn {
    type V = InputReturnModel;

    open spec fn view(&self) -> InputReturnModel {
        InputReturnModel {
            invocation_id: self.invocation_id@,
            key: self.key@,
            headers: views(self.headers@),
            input: self.input@,
        }
    }
}

/// What one field does to a [`InputReturn`] being read.
pub open spec fn input_return_step(m: InputReturnModel, f: Field) -> Option<InputReturnModel> {
    if f.number == 1 {
        match as_text(f.value) {
            Some(x) => Some(
                InputReturnModel {
                    invocation_id: x,
                    key: m.key,
                    headers: m.headers,
                    input: m.input,
                },
            ),
            None => None,
        }
    } else if f.number == 2 {
        match as_text(f.value) {
            Some(x) => Some(
                InputReturnModel {
                    invocation_id: m.invocation_id,
                    key: x,
                    headers: m.headers,
                    input: m.input,
                },
            ),
            None => None,
        }
    } else if f.number == 3 {
        match as_nested::<Header>(Header::blank(), f.value) {
            Some(x) => Some(
                InputReturnModel {
                    invocation_id: m.invocation_id,
                    key: m.key,
                    headers: m.headers.push(x),
                    input: m.input,
                },
            ),
            None => None,
        }
    } else if f.number == 4 {
        match as_bytes(f.value) {
            Some(x) => Some(
                InputReturnModel {
                    invocation_id: m.invocation_id,
                    key: m.key,
                    headers: m.headers,
                    input: x,
                },
            ),
            None => None,
        }
    } else {
        Some(m)
    }
}

/// [`input_return_step`] as a value.
pub open spec fn input_return_stepper() -> spec_fn(
    InputReturnModel,
    Field,
) -> Option<InputReturnModel> {
    |x: InputReturnModel, f: Field| input_return_step(x, f)
}

/// Reading the fields of a list of headers appends the list.
proof fn lemma_input_return_headers(base: InputReturnModel, items: Seq<HeaderModel>)
    requires
        forall|i: int|
            0 <= i < items.len() ==> (#[trigger] encoded::<Header>(items[i])).len() <= u64::MAX,
    ensures
        numbered(nested_list(3, encoded_list::<Header>(items))),
        fold(base, nested_list(3, encoded_list::<Header>(items)), input_return_stepper()) == Some(
            InputReturnModel {
                invocation_id: base.invocation_id,
                key: base.key,
                headers: base.headers + items,
                input: base.input,
            },
        ),
    decreases items.len(),
{
    let piece = nested_list(3, encoded_list::<Header>(items));
    let st = input_return_stepper();
    if items.len() == 0 {
        assert(base.headers + items =~= base.headers);
        lemma_fold_short(base, piece, st);
    } else {
        let front = items.drop_last();
        let before = nested_list(3, encoded_list::<Header>(front));
        lemma_input_return_headers(base, front);
        assert(piece.drop_last() =~= before);
        lemma_round_trip::<Header>(items.last());
        assert((base.headers + front).push(items.last()) =~= base.headers + items);
    }
}

impl Message for InputReturn {
    open spec fn blank() -> InputReturnModel {
        InputReturnModel {
            invocation_id: Seq::empty(),
            key: Seq::empty(),
            headers: Seq::empty(),
            input: Seq::empty(),
        }
    }

    open spec fn step(m: InputReturnModel, f: Field) -> Option<InputReturnModel> {
        input_return_step(m, f)
    }

    open spec fn fields(m: InputReturnModel) -> Seq<Field> {
        text_piece(1, m.invocation_id)
            + text_piece(2, m.key)
            + nested_list(3, encoded_list::<Header>(m.headers))
            + bytes_piece(4, m.input)
    }

    open spec fn knows(number: u32) -> bool {
        number == 1 || number == 2 || number == 3 || number == 4
    }

    fn fresh() -> (r: InputReturn) {
        InputReturn {
            invocation_id: String::new(),
            key: String::new(),
            headers: no_items(),
            input: Vec::new(),
        }
    }

    fn absorb(self, f: &RawField) -> (r: Option<InputReturn>) {
        let mut m = self;
        if f.number == 1 {
            match read_text(&f.value) {
                Some(x) => {
                    m.invocation_id = x;
                    Some(m)
                },
                None => None,
            }
        } else if f.number == 2 {
            match read_text(&f.value) {
                Some(x) => {
                    m.key = x;
                    Some(m)
                },
                None => None,
            }
        } else if f.number == 3 {
            match read_nested(Header::fresh(), &f.value) {
                Some(x) => {
                    push_item(&mut m.headers, x);
                    Some(m)
                },
                None => None,
            }
        } else if f.number == 4 {
            match read_bytes(&f.value) {
                Some(x) => {
                    m.input = x;
                    Some(m)
                },
                None => None,
            }
        } else {
            Some(m)
        }
    }

    fn to_fields(&self) -> (r: Vec<RawField>) {
        let mut fs: Vec<RawField> = Vec::new();
        proof {
            assert(models(fs@) =~= Seq::<Field>::empty());
        }
        push_text(&mut fs, 1, &self.invocation_id);
        push_text(&mut fs, 2, &self.key);
        push_nested_list(&mut fs, 3, &self.headers);
        push_bytes(&mut fs, 4, &self.input);
        proof {
            assert(models(fs@) =~= Self::fields(self@));
        }
        fs
    }

    proof fn lemma_unknown(m: InputReturnModel, f: Field) {
    }

    proof fn lemma_restore(m: InputReturnModel) {
        let st = |x: InputReturnModel, f: Field| Self::step(x, f);
        assert(st =~= input_return_stepper());
        let b = Self::blank();
        let run0 = Seq::<Field>::empty();
        let part1 = text_piece(1, m.invocation_id);
        let run1 = run0 + part1;
        lemma_join(run0, part1);
        let part2 = text_piece(2, m.key);
        let run2 = run1 + part2;
        lemma_join(run1, part2);
        let part3 = nested_list(3, encoded_list::<Header>(m.headers));
        let run3 = run2 + part3;
        lemma_join(run2, part3);
        let part4 = bytes_piece(4, m.input);
        let run4 = run3 + part4;
        lemma_join(run3, part4);
        assert(run1 =~= part1);
        lemma_fold_short(b, run0, st);
        lemma_text_piece(1, m.invocation_id);
        lemma_fold_then(b, run0, b, part1, st);
        let state1 = InputReturnModel {
            invocation_id: m.invocation_id,
            key: b.key,
            headers: b.headers,
            input: b.input,
        };
        assert(fold(b, run1, st) == Some(state1));
        lemma_text_piece(2, m.key);
        lemma_fold_then(b, run1, state1, part2, st);
        let state2 = InputReturnModel {
            invocation_id: m.invocation_id,
            key: m.key,
            headers: b.headers,
            input: b.input,
        };
        assert(fold(b, run2, st) == Some(state2));
        assert forall|i: int| 0 <= i < m.headers.len() implies (#[trigger] encoded::<Header>(
            m.headers[i],
        )).len() <= u64::MAX by {
            lemma_payload_within(part3, i);
        }
        lemma_input_return_headers(state2, m.headers);
        assert(b.headers + m.headers =~= m.headers);
        lemma_fold_then(b, run2, state2, part3, st);
        let state3 = InputReturnModel {
            invocation_id: m.invocation_id,
            key: m.key,
            headers: m.headers,
            input: b.input,
        };
        assert(fold(b, run3, st) == Some(state3));
        lemma_bytes_piece(4, m.input);
        lemma_fold_then(b, run3, state3, part4, st);
        assert(fold(b, run4, st) == Some(m));
    }
}

/// What asking for the input gave.
#[derive(Clone, Debug, PartialEq, Eq)]
pub enum SysInputResult {
    /// The input. Field 1.
    Input(InputReturn),
    /// The engine refused; this is its report. Field 2.
    Failure(Failure),
}

/// What a [`SysInputResult`] holds.
pub enum SysInputResultModel {
    Input(InputReturnModel),
    Failure(FailureModel),
}

impl View for SysInputResult {
    type V = SysInputResultModel;

    open spec fn view(&self) -> SysInputResultModel {
        match self {
            SysInputResult::Input(x) => SysInputResultModel::Input(x@),
            SysInputResult::Failure(x) => SysInputResultModel::Failure(x@),
        }
    }
}

/// The field that a [`SysInputResult`] is written as, if one is chosen.
pub open spec fn sys_input_result_piece(r: Option<SysInputResultModel>) -> Seq<Field> {
    match r {
        Some(SysInputResultModel::Input(x)) => present_bytes(1, encoded::<InputReturn>(x)),
        Some(SysInputResultModel::Failure(x)) => present_bytes(2, encoded::<Failure>(x)),
        None => Seq::empty(),
    }
}

/// Answer to a request for the invocation's input.
#[derive(Clone, Debug, PartialEq, Eq)]
pub struct VmSysInputReturn {
    /// The arm that applies.
    pub result: Option<SysInputResult>,
}

/// What a [`VmSysInputReturn`] holds.
pub struct VmSysInputReturnModel {
    pub result: Option<SysInputResultModel>,
}

impl View for VmSysInputReturn {
    type V = VmSysInputReturnModel;

    open spec fn view(&self) -> VmSysInputReturnModel {
        VmSysInputReturnModel { result: option_view(self.result) }
    }
}

impl Message for VmSysInputReturn {
    open spec fn blank() -> VmSysInputReturnModel {
        VmSysInputReturnModel { result: None }
    }

    open spec fn step(m: VmSysInputReturnModel, f: Field) -> Option<VmSysInputReturnModel> {
        if f.number == 1 {
            let base = match m.result {
                Some(SysInputResultModel::Input(b)) => b,
                _ => InputReturn::blank(),
            };
            match as_nested::<InputReturn>(base, f.value) {
                Some(x) => Some(
                    VmSysInputReturnModel { result: Some(SysInputResultModel::Input(x)) },
                ),
                None => None,
            }
        } else if f.number == 2 {
            let base = match m.result {
                Some(SysInputResultModel::Failure(b)) => b,
                _ => Failure::blank(),
            };
            match as_nested::<Failure>(base, f.value) {
                Some(x) => Some(
                    VmSysInputReturnModel { result: Some(SysInputResultModel::Failure(x)) },
                ),
                None => None,
            }
        } else {
            Some(m)
        }
    }

    open spec fn fields(m: VmSysInputReturnModel) -> Seq<Field> {
        sys_input_result_piece(m.result)
    }

    open spec fn knows(number: u32) -> bool {
        number == 1 || number == 2
    }

    fn fresh() -> (r: VmSysInputReturn) {
        VmSysInputReturn { result: None }
    }

    fn absorb(self, f: &RawField) -> (r: Option<VmSysInputReturn>) {
        let mut m = self;
        if f.number == 1 {
            let base = match m.result.take() {
                Some(SysInputResult::Input(b)) => b,
                _ => InputReturn::fresh(),
            };
            match read_nested(base, &f.value) {
                Some(x) => {
                    m.result = Some(SysInputResult::Input(x));
                    Some(m)
                },
                None => None,
            }
        } else if f.number == 2 {
            let base = match m.result.take() {
                Some(SysInputResult::Failure(b)) => b,
                _ => Failure::fresh(),
            };
            match read_nested(base, &f.value) {
                Some(x) => {
                    m.result = Some(SysInputResult::Failure(x));
                    Some(m)
                },
                None => None,
            }
        } else {
            Some(m)
        }
    }

    fn to_fields(&self) -> (r: Vec<RawField>) {
        let mut fs: Vec<RawField> = Vec::new();
        proof {
            assert(models(fs@) =~= Seq::<Field>::empty());
        }
        match &self.result {
            Some(SysInputResult::Input(x)) => {
                push_nested(&mut fs, 1, x);
            },
            Some(SysInputResult::Failure(x)) => {
                push_nested(&mut fs, 2, x);
            },
            None => {
                proof {
                    assert(models(fs@) + Seq::<Field>::empty() =~= models(fs@));
                }
            },
        }
        proof {
            assert(models(fs@) =~= Self::fields(self@));
        }
        fs
    }

    proof fn lemma_unknown(m: VmSysInputReturnModel, f: Field) {
    }

    proof fn lemma_restore(m: VmSysInputReturnModel) {
        let st = |x: VmSysInputReturnModel, f: Field| Self::step(x, f);
        let b = Self::blank();
        let run0 = Seq::<Field>::empty();
        let part1 = sys_input_result_piece(m.result);
        let run1 = run0 + part1;
        lemma_join(run0, part1);
        assert(run1 =~= part1);
        lemma_fold_short(b, run0, st);
        match m.result {
            Some(SysInputResultModel::Input(x)) => {
                lemma_present_pieces(1, Seq::empty(), encoded::<InputReturn>(x));
                lemma_round_trip::<InputReturn>(x);
            },
            Some(SysInputResultModel::Failure(x)) => {
                lemma_present_pieces(2, Seq::empty(), encoded::<Failure>(x));
                lemma_round_trip::<Failure>(x);
            },
            None => {},
        }
        lemma_fold_then(b, run0, b, part1, st);
        assert(fold(b, run1, st) == Some(m));
    }
}

/// What starting an operation that completes later gave.
#[derive(Clone, Debug, PartialEq, Eq)]
pub enum AsyncResult {
    /// The notification to poll for the result. Field 1.
    Handle(u32),
    /// The engine refused; this is its report. Field 2.
    Failure(Failure),
}

/// What a [`AsyncResult`] holds.
pub enum AsyncResultModel {
    Handle(u32),
    Failure(FailureModel),
}

impl View for AsyncResult {
    type V = AsyncResultModel;

    open spec fn view(&self) -> AsyncResultModel {
        match self {
            AsyncResult::Handle(x) => AsyncResultModel::Handle(*x),
            AsyncResult::Failure(x) => AsyncResultModel::Failure(x@),
        }
    }
}

/// The field that a [`AsyncResult`] is written as, if one is chosen.
pub open spec fn async_result_piece(r: Option<AsyncResultModel>) -> Seq<Field> {
    match r {
        Some(AsyncResultModel::Handle(x)) => present_number(1, x as u64),
        Some(AsyncResultModel::Failure(x)) => present_bytes(2, encoded::<Failure>(x)),
        None => Seq::empty(),
    }
}

/// Answer of an operation that completes later.
#[derive(Clone, Debug, PartialEq, Eq)]
pub struct SimpleSysAsyncResultReturn {
    /// The arm that applies.
    pub result: Option<AsyncResult>,
}

/// What a [`SimpleSysAsyncResultReturn`] holds.
pub struct SimpleSysAsyncResultReturnModel {
    pub result: Option<AsyncResultModel>,
}

impl View for SimpleSysAsyncResultReturn {
    type V = SimpleSysAsyncResultReturnModel;

    open spec fn view(&self) -> SimpleSysAsyncResultReturnModel {
        SimpleSysAsyncResultReturnModel { result: option_view(self.result) }
    }
}

impl Message for SimpleSysAsyncResultReturn {
    open spec fn blank() -> SimpleSysAsyncResultReturnModel {
        SimpleSysAsyncResultReturnModel { result: None }
    }

    open spec fn step(
        m: SimpleSysAsyncResultReturnModel,
        f: Field,
    ) -> Option<SimpleSysAsyncResultReturnModel> {
        if f.number == 1 {
            match as_u32(f.value) {
                Some(x) => Some(
                    SimpleSysAsyncResultReturnModel { result: Some(AsyncResultModel::Handle(x)) },
                ),
                None => None,
            }
        } else if f.number == 2 {
            let base = match m.result {
                Some(AsyncResultModel::Failure(b)) => b,
                _ => Failure::blank(),
            };
            match as_nested::<Failure>(base, f.value) {
                Some(x) => Some(
                    SimpleSysAsyncResultReturnModel { result: Some(AsyncResultModel::Failure(x)) },
                ),
                None => None,
            }
        } else {
            Some(m)
        }
    }

    open spec fn fields(m: SimpleSysAsyncResultReturnModel) -> Seq<Field> {
        async_result_piece(m.result)
    }

    open spec fn knows(number: u32) -> bool {
        number == 1 || number == 2
    }

    fn fresh() -> (r: SimpleSysAsyncResultReturn) {
        SimpleSysAsyncResultReturn { result: None }
    }

    fn absorb(self, f: &RawField) -> (r: Option<SimpleSysAsyncResultReturn>) {
        let mut m = self;
        if f.number == 1 {
            match read_u32(&f.value) {
                Some(x) => {
                    m.result = Some(AsyncResult::Handle(x));
                    Some(m)
                },
                None => None,
            }
        } else if f.number == 2 {
            let base = match m.result.take() {
                Some(AsyncResult::Failure(b)) => b,
                _ => Failure::fresh(),
            };
            match read_nested(base, &f.value) {
                Some(x) => {
                    m.result = Some(AsyncResult::Failure(x));
                    Some(m)
                },
                None => None,
            }
        } else {
            Some(m)
        }
    }

    fn to_fields(&self) -> (r: Vec<RawField>) {
        let mut fs: Vec<RawField> = Vec::new();
        proof {
            assert(models(fs@) =~= Seq::<Field>::empty());
        }
        match &self.result {
            Some(AsyncResult::Handle(x)) => {
                push_present_number(&mut fs, 1, *x as u64);
            },
            Some(AsyncResult::Failure(x)) => {
                push_nested(&mut fs, 2, x);
            },
            None => {
                proof {
                    assert(models(fs@) + Seq::<Field>::empty() =~= models(fs@));
                }
            },
        }
        proof {
            assert(models(fs@) =~= Self::fields(self@));
        }
        fs
    }

    proof fn lemma_unknown(m: SimpleSysAsyncResultReturnModel, f: Field) {
    }

    proof fn lemma_restore(m: SimpleSysAsyncResultReturnModel) {
        let st = |x: SimpleSysAsyncResultReturnModel, f: Field| Self::step(x, f);
        let b = Self::blank();
        let run0 = Seq::<Field>::empty();
        let part1 = async_result_piece(m.result);
        let run1 = run0 + part1;
        lemma_join(run0, part1);
        assert(run1 =~= part1);
        lemma_fold_short(b, run0, st);
        match m.result {
            Some(AsyncResultModel::Handle(x)) => {
                lemma_number_pieces(1, x as u64, x);
            },
            Some(AsyncResultModel::Failure(x)) => {
                lemma_present_pieces(2, Seq::empty(), encoded::<Failure>(x));
                lemma_round_trip::<Failure>(x);
            },
            None => {},
        }
        lemma_fold_then(b, run0, b, part1, st);
        assert(fold(b, run1, st) == Some(m));
    }
}

/// What an operation that returns nothing came to.
#[derive(Clone, Debug, PartialEq, Eq)]
pub enum EmptyResult {
    /// It was done. Field 1.
    Done,
    /// The engine refused; this is its report. Field 2.
    Failure(Failure),
}

/// What a [`EmptyResult`] holds.
pub enum EmptyResultModel {
    Done,
    Failure(FailureModel),
}

impl View for EmptyResult {
    type V = EmptyResultModel;

    open spec fn view(&self) -> EmptyResultModel {
        match self {
            EmptyResult::Done => EmptyResultModel::Done,
            EmptyResult::Failure(x) => EmptyResultModel::Failure(x@),
        }
    }
}

/// The field that a [`EmptyResult`] is written as, if one is chosen.
pub open spec fn empty_result_piece(r: Option<EmptyResultModel>) -> Seq<Field> {
    match r {
        Some(EmptyResultModel::Done) => present_bytes(1, Seq::empty()),
        Some(EmptyResultModel::Failure(x)) => present_bytes(2, encoded::<Failure>(x)),
        None => Seq::empty(),
    }
}

/// Answer of an operation that returns nothing.
#[derive(Clone, Debug, PartialEq, Eq)]
pub struct GenericEmptyReturn {
    /// The arm that applies.
    pub result: Option<EmptyResult>,
}

/// What a [`GenericEmptyReturn`] holds.
pub struct GenericEmptyReturnModel {
    pub result: Option<EmptyResultModel>,
}

impl View for GenericEmptyReturn {
    type V = GenericEmptyReturnModel;

    open spec fn view(&self) -> GenericEmptyReturnModel {
        GenericEmptyReturnModel { result: option_view(self.result) }
    }
}

impl Message for GenericEmptyReturn {
    open spec fn blank() -> GenericEmptyReturnModel {
        GenericEmptyReturnModel { result: None }
    }

    open spec fn step(m: GenericEmptyReturnModel, f: Field) -> Option<GenericEmptyReturnModel> {
        if f.number == 1 {
            match as_nested::<Empty>((), f.value) {
                Some(_) => Some(GenericEmptyReturnModel { result: Some(EmptyResultModel::Done) }),
                None => None,
            }
        } else if f.number == 2 {
            let base = match m.result {
                Some(EmptyResultModel::Failure(b)) => b,
                _ => Failure::blank(),
            };
            match as_nested::<Failure>(base, f.value) {
                Some(x) => Some(
                    GenericEmptyReturnModel { result: Some(EmptyResultModel::Failure(x)) },
                ),
                None => None,
            }
        } else {
            Some(m)
        }
    }

    open spec fn fields(m: GenericEmptyReturnModel) -> Seq<Field> {
        empty_result_piece(m.result)
    }

    open spec fn knows(number: u32) -> bool {
        number == 1 || number == 2
    }

    fn fresh() -> (r: GenericEmptyReturn) {
        GenericEmptyReturn { result: None }
    }

    fn absorb(self, f: &RawField) -> (r: Option<GenericEmptyReturn>) {
        let mut m = self;
        if f.number == 1 {
            match read_nested(Empty::fresh(), &f.value) {
                Some(_) => {
                    m.result = Some(EmptyResult::Done);
                    Some(m)
                },
                None => None,
            }
        } else if f.number == 2 {
            let base = match m.result.take() {
                Some(EmptyResult::Failure(b)) => b,
                _ => Failure::fresh(),
            };
            match read_nested(base, &f.value) {
                Some(x) => {
                    m.result = Some(EmptyResult::Failure(x));
                    Some(m)
                },
                None => None,
            }
        } else {
            Some(m)
        }
    }

    fn to_fields(&self) -> (r: Vec<RawField>) {
        let mut fs: Vec<RawField> = Vec::new();
        proof {
            assert(models(fs@) =~= Seq::<Field>::empty());
        }
        match &self.result {
            Some(EmptyResult::Done) => {
                push_present_bytes(&mut fs, 1, &Vec::new());
            },
            Some(EmptyResult::Failure(x)) => {
                push_nested(&mut fs, 2, x);
            },
            None => {
                proof {
                    assert(models(fs@) + Seq::<Field>::empty() =~= models(fs@));
                }
            },
        }
        proof {
            assert(models(fs@) =~= Self::fields(self@));
        }
        fs
    }

    proof fn lemma_unknown(m: GenericEmptyReturnModel, f: Field) {
    }

    proof fn lemma_restore(m: GenericEmptyReturnModel) {
        let st = |x: GenericEmptyReturnModel, f: Field| Self::step(x, f);
        let b = Self::blank();
        let run0 = Seq::<Field>::empty();
        let part1 = empty_result_piece(m.result);
        let run1 = run0 + part1;
        lemma_join(run0, part1);
        assert(run1 =~= part1);
        lemma_fold_short(b, run0, st);
        match m.result {
            Some(EmptyResultModel::Done) => {
                lemma_present_pieces(1, Seq::empty(), Seq::empty());
                lemma_empty_payload();
            },
            Some(EmptyResultModel::Failure(x)) => {
                lemma_present_pieces(2, Seq::empty(), encoded::<Failure>(x));
                lemma_round_trip::<Failure>(x);
            },
            None => {},
        }
        lemma_fold_then(b, run0, b, part1, st);
        assert(fold(b, run1, st) == Some(m));
    }
}

/// A new awakeable.
#[derive(Clone, Debug, PartialEq, Eq)]
pub struct Awakeable {
    /// The identifier to hand to whoever will complete it. Field 1.
    pub id: String,
    /// The notification to poll for its completion. Field 2.
    pub handle: u32,
}

/// What a [`Awakeable`] holds.
pub struct AwakeableModel {
    pub id: Seq<char>,
    pub handle: u32,
}

impl View for Awakeable {
    type V = AwakeableModel;

    open spec fn view(&self) -> AwakeableModel {
        AwakeableModel { id: self.id@, handle: self.handle }
    }
}

impl Message for Awakeable {
    open spec fn blank() -> AwakeableModel {
        AwakeableModel { id: Seq::empty(), handle: 0 }
    }

    open spec fn step(m: AwakeableModel, f: Field) -> Option<AwakeableModel> {
        if f.number == 1 {
            match as_text(f.value) {
                Some(x) => Some(AwakeableModel { id: x, handle: m.handle }),
                None => None,
            }
        } else if f.number == 2 {
            match as_u32(f.value) {
                Some(x) => Some(AwakeableModel { id: m.id, handle: x }),
                None => None,
            }
        } else {
            Some(m)
        }
    }

    open spec fn fields(m: AwakeableModel) -> Seq<Field> {
        text_piece(1, m.id) + number_piece(2, m.handle as u64)
    }

    open spec fn knows(number: u32) -> bool {
        number == 1 || number == 2
    }

    fn fresh() -> (r: Awakeable) {
        Awakeable { id: String::new(), handle: 0 }
    }

    fn absorb(self, f: &RawField) -> (r: Option<Awakeable>) {
        let mut m = self;
        if f.number == 1 {
            match read_text(&f.value) {
                Some(x) => {
                    m.id = x;
                    Some(m)
                },
                None => None,
            }
        } else if f.number == 2 {
            match read_u32(&f.value) {
                Some(x) => {
                    m.handle = x;
                    Some(m)
                },
                None => None,
            }
        } else {
            Some(m)
        }
    }

    fn to_fields(&self) -> (r: Vec<RawField>) {
        let mut fs: Vec<RawField> = Vec::new();
        proof {
            assert(models(fs@) =~= Seq::<Field>::empty());
        }
        push_text(&mut fs, 1, &self.id);
        push_number(&mut fs, 2, self.handle as u64);
        proof {
            assert(models(fs@) =~= Self::fields(self@));
        }
        fs
    }

    proof fn lemma_unknown(m: AwakeableModel, f: Field) {
    }

    proof fn lemma_restore(m: AwakeableModel) {
        let st = |x: AwakeableModel, f: Field| Self::step(x, f);
        let b = Self::blank();
        let run0 = Seq::<Field>::empty();
        let part1 = text_piece(1, m.id);
        let run1 = run0 + part1;
        lemma_join(run0, part1);
        let part2 = number_piece(2, m.handle as u64);
        let run2 = run1 + part2;
        lemma_join(run1, part2);
        assert(run1 =~= part1);
        lemma_fold_short(b, run0, st);
        lemma_text_piece(1, m.id);
        lemma_fold_then(b, run0, b, part1, st);
        let state1 = AwakeableModel { id: m.id, handle: b.handle };
        assert(fold(b, run1, st) == Some(state1));
        lemma_number_pieces(2, m.handle as u64, m.handle);
        lemma_fold_then(b, run1, state1, part2, st);
        assert(fold(b, run2, st) == Some(m));
    }
}

/// What asking for an awakeable gave.
#[derive(Clone, Debug, PartialEq, Eq)]
pub enum AwakeableResult {
    /// The awakeable. Field 1.
    Created(Awakeable),
    /// The engine refused; this is its report. Field 2.
    Failure(Failure),
}

/// What a [`AwakeableResult`] holds.
pub enum AwakeableResultModel {
    Created(AwakeableModel),
    Failure(FailureModel),
}

impl View for AwakeableResult {
    type V = AwakeableResultModel;

    open spec fn view(&self) -> AwakeableResultModel {
        match self {
            AwakeableResult::Created(x) => AwakeableResultModel::Created(x@),
            AwakeableResult::Failure(x) => AwakeableResultModel::Failure(x@),
        }
    }
}

/// The field that a [`AwakeableResult`] is written as, if one is chosen.
pub open spec fn awakeable_result_piece(r: Option<AwakeableResultModel>) -> Seq<Field> {
    match r {
        Some(AwakeableResultModel::Created(x)) => present_bytes(1, encoded::<Awakeable>(x)),
        Some(AwakeableResultModel::Failure(x)) => present_bytes(2, encoded::<Failure>(x)),
        None => Seq::empty(),
    }
}

/// Answer to a request for a new awakeable.
#[derive(Clone, Debug, PartialEq, Eq)]
pub struct VmSysAwakeableReturn {
    /// The arm that applies.
    pub result: Option<AwakeableResult>,
}

/// What a [`VmSysAwakeableReturn`] holds.
pub struct VmSysAwakeableReturnModel {
    pub result: Option<AwakeableResultModel>,
}

impl View for VmSysAwakeableReturn {
    type V = VmSysAwakeableReturnModel;

    open spec fn view(&self) -> VmSysAwakeableReturnModel {
        VmSysAwakeableReturnModel { result: option_view(self.result) }
    }
}

impl Message for VmSysAwakeableReturn {
    open spec fn blank() -> VmSysAwakeableReturnModel {
        VmSysAwakeableReturnModel { result: None }
    }

    open spec fn step(m: VmSysAwakeableReturnModel, f: Field) -> Option<VmSysAwakeableReturnModel> {
        if f.number == 1 {
            let base = match m.result {
                Some(AwakeableResultModel::Created(b)) => b,
                _ => Awakeable::blank(),
            };
            match as_nested::<Awakeable>(base, f.value) {
                Some(x) => Some(
                    VmSysAwakeableReturnModel { result: Some(AwakeableResultModel::Created(x)) },
                ),
                None => None,
            }
        } else if f.number == 2 {
            let base = match m.result {
                Some(AwakeableResultModel::Failure(b)) => b,
                _ => Failure::blank(),
            };
            match as_nested::<Failure>(base, f.value) {
                Some(x) => Some(
                    VmSysAwakeableReturnModel { result: Some(AwakeableResultModel::Failure(x)) },
                ),
                None => None,
            }
        } else {
            Some(m)
        }
    }

    open spec fn fields(m: VmSysAwakeableReturnModel) -> Seq<Field> {
        awakeable_result_piece(m.result)
    }

    open spec fn knows(number: u32) -> bool {
        number == 1 || number == 2
    }

    fn fresh() -> (r: VmSysAwakeableReturn) {
        VmSysAwakeableReturn { result: None }
    }

    fn absorb(self, f: &RawField) -> (r: Option<VmSysAwakeableReturn>) {
        let mut m = self;
        if f.number == 1 {
            let base = match m.result.take() {
                Some(AwakeableResult::Created(b)) => b,
                _ => Awakeable::fresh(),
            };
            match read_nested(base, &f.value) {
                Some(x) => {
                    m.result = Some(AwakeableResult::Created(x));
                    Some(m)
                },
                None => None,
            }
        } else if f.number == 2 {
            let base = match m.result.take() {
                Some(AwakeableResult::Failure(b)) => b,
                _ => Failure::fresh(),
            };
            match read_nested(base, &f.value) {
                Some(x) => {
                    m.result = Some(AwakeableResult::Failure(x));
                    Some(m)
                },
                None => None,
            }
        } else {
            Some(m)
        }
    }

    fn to_fields(&self) -> (r: Vec<RawField>) {
        let mut fs: Vec<RawField> = Vec::new();
        proof {
            assert(models(fs@) =~= Seq::<Field>::empty());
        }
        match &self.result {
            Some(AwakeableResult::Created(x)) => {
                push_nested(&mut fs, 1, x);
            },
            Some(AwakeableResult::Failure(x)) => {
                push_nested(&mut fs, 2, x);
            },
            None => {
                proof {
                    assert(models(fs@) + Seq::<Field>::empty() =~= models(fs@));
                }
            },
        }
        proof {
            assert(models(fs@) =~= Self::fields(self@));
        }
        fs
    }

    proof fn lemma_unknown(m: VmSysAwakeableReturnModel, f: Field) {
    }

    proof fn lemma_restore(m: VmSysAwakeableReturnModel) {
        let st = |x: VmSysAwakeableReturnModel, f: Field| Self::step(x, f);
        let b = Self::blank();
        let run0 = Seq::<Field>::empty();
        let part1 = awakeable_result_piece(m.result);
        let run1 = run0 + part1;
        lemma_join(run0, part1);
        assert(run1 =~= part1);
        lemma_fold_short(b, run0, st);
        match m.result {
            Some(AwakeableResultModel::Created(x)) => {
                lemma_present_pieces(1, Seq::empty(), encoded::<Awakeable>(x));
                lemma_round_trip::<Awakeable>(x);
            },
            Some(AwakeableResultModel::Failure(x)) => {
                lemma_present_pieces(2, Seq::empty(), encoded::<Failure>(x));
                lemma_round_trip::<Failure>(x);
            },
            None => {},
        }
        lemma_fold_then(b, run0, b, part1, st);
        assert(fold(b, run1, st) == Some(m));
    }
}

/// The two notifications of a call.
#[derive(Clone, Debug, PartialEq, Eq)]
pub struct CallHandles {
    /// The notification that completes with the identifier of the called
    /// invocation. Field 1.
    pub invocation_id_handle: u32,
    /// The notification that completes with the result of the call. Field 2.
    pub result_handle: u32,
}

/// What a [`CallHandles`] holds.
pub struct CallHandlesModel {
    pub invocation_id_handle: u32,
    pub result_handle: u32,
}

impl View for CallHandles {
    type V = CallHandlesModel;

    open spec fn view(&self) -> CallHandlesModel {
        CallHandlesModel {
            invocation_id_handle: self.invocation_id_handle,
            result_handle: self.result_handle,
        }
    }
}

impl Message for CallHandles {
    open spec fn blank() -> CallHandlesModel {
        CallHandlesModel { invocation_id_handle: 0, result_handle: 0 }
    }

    open spec fn step(m: CallHandlesModel, f: Field) -> Option<CallHandlesModel> {
        if f.number == 1 {
            match as_u32(f.value) {
                Some(x) => Some(
                    CallHandlesModel { invocation_id_handle: x, result_handle: m.result_handle },
                ),
                None => None,
            }
        } else if f.number == 2 {
            match as_u32(f.value) {
                Some(x) => Some(
                    CallHandlesModel {
                        invocation_id_handle: m.invocation_id_handle,
                        result_handle: x,
                    },
                ),
                None => None,
            }
        } else {
            Some(m)
        }
    }

    open spec fn fields(m: CallHandlesModel) -> Seq<Field> {
        number_piece(1, m.invocation_id_handle as u64) + number_piece(2, m.result_handle as u64)
    }

    open spec fn knows(number: u32) -> bool {
        number == 1 || number == 2
    }

    fn fresh() -> (r: CallHandles) {
        CallHandles { invocation_id_handle: 0, result_handle: 0 }
    }

    fn absorb(self, f: &RawField) -> (r: Option<CallHandles>) {
        let mut m = self;
        if f.number == 1 {
            match read_u32(&f.value) {
                Some(x) => {
                    m.invocation_id_handle = x;
                    Some(m)
                },
                None => None,
            }
        } else if f.number == 2 {
            match read_u32(&f.value) {
                Some(x) => {
                    m.result_handle = x;
                    Some(m)
                },
                None => None,
            }
        } else {
            Some(m)
        }
    }

    fn to_fields(&self) -> (r: Vec<RawField>) {
        let mut fs: Vec<RawField> = Vec::new();
        proof {
            assert(models(fs@) =~= Seq::<Field>::empty());
        }
        push_number(&mut fs, 1, self.invocation_id_handle as u64);
        push_number(&mut fs, 2, self.result_handle as u64);
        proof {
            assert(models(fs@) =~= Self::fields(self@));
        }
        fs
    }

    proof fn lemma_unknown(m: CallHandlesModel, f: Field) {
    }

    proof fn lemma_restore(m: CallHandlesModel) {
        let st = |x: CallHandlesModel, f: Field| Self::step(x, f);
        let b = Self::blank();
        let run0 = Seq::<Field>::empty();
        let part1 = number_piece(1, m.invocation_id_handle as u64);
        let run1 = run0 + part1;
        lemma_join(run0, part1);
        let part2 = number_piece(2, m.result_handle as u64);
        let run2 = run1 + part2;
        lemma_join(run1, part2);
        assert(run1 =~= part1);
        lemma_fold_short(b, run0, st);
        lemma_number_pieces(1, m.invocation_id_handle as u64, m.invocation_id_handle);
        lemma_fold_then(b, run0, b, part1, st);
        let state1 = CallHandlesModel {
            invocation_id_handle: m.invocation_id_handle,
            result_handle: b.result_handle,
        };
        assert(fold(b, run1, st) == Some(state1));
        lemma_number_pieces(2, m.result_handle as u64, m.result_handle);
        lemma_fold_then(b, run1, state1, part2, st);
        assert(fold(b, run2, st) == Some(m));
    }
}

/// What starting a call gave.
#[derive(Clone, Debug, PartialEq, Eq)]
pub enum SysCallResult {
    /// The notifications of the call. Field 1.
    Handles(CallHandles),
    /// The engine refused; this is its report. Field 2.
    Failure(Failure),
}

/// What a [`SysCallResult`] holds.
pub enum SysCallResultModel {
    Handles(CallHandlesModel),
    Failure(FailureModel),
}

impl View for SysCallResult {
    type V = SysCallResultModel;

    open spec fn view(&self) -> SysCallResultModel {
        match self {
            SysCallResult::Handles(x) => SysCallResultModel::Handles(x@),
            SysCallResult::Failure(x) => SysCallResultModel::Failure(x@),
        }
    }
}

/// The field that a [`SysCallResult`] is written as, if one is chosen.
pub open spec fn sys_call_result_piece(r: Option<SysCallResultModel>) -> Seq<Field> {
    match r {
        Some(SysCallResultModel::Handles(x)) => present_bytes(1, encoded::<CallHandles>(x)),
        Some(SysCallResultModel::Failure(x)) => present_bytes(2, encoded::<Failure>(x)),
        None => Seq::empty(),
    }
}

/// Answer to a call.
#[derive(Clone, Debug, PartialEq, Eq)]
pub struct VmSysCallReturn {
    /// The arm that applies.
    pub result: Option<SysCallResult>,
}

/// What a [`VmSysCallReturn`] holds.
pub struct VmSysCallReturnModel {
    pub result: Option<SysCallResultModel>,
}

impl View for VmSysCallReturn {
    type V = VmSysCallReturnModel;

    open spec fn view(&self) -> VmSysCallReturnModel {
        VmSysCallReturnModel { result: option_view(self.result) }
    }
}

impl Message for VmSysCallReturn {
    open spec fn blank() -> VmSysCallReturnModel {
        VmSysCallReturnModel { result: None }
    }

    open spec fn step(m: VmSysCallReturnModel, f: Field) -> Option<VmSysCallReturnModel> {
        if f.number == 1 {
            let base = match m.result {
                Some(SysCallResultModel::Handles(b)) => b,
                _ => CallHandles::blank(),
            };
            match as_nested::<CallHandles>(base, f.value) {
                Some(x) => Some(
                    VmSysCallReturnModel { result: Some(SysCallResultModel::Handles(x)) },
                ),
                None => None,
            }
        } else if f.number == 2 {
            let base = match m.result {
                Some(SysCallResultModel::Failure(b)) => b,
                _ => Failure::blank(),
            };
            match as_nested::<Failure>(base, f.value) {
                Some(x) => Some(
                    VmSysCallReturnModel { result: Some(SysCallResultModel::Failure(x)) },
                ),
                None => None,
            }
        } else {
            Some(m)
        }
    }

    open spec fn fields(m: VmSysCallReturnModel) -> Seq<Field> {
        sys_call_result_piece(m.result)
    }

    open spec fn knows(number: u32) -> bool {
        number == 1 || number == 2
    }

    fn fresh() -> (r: VmSysCallReturn) {
        VmSysCallReturn { result: None }
    }

    fn absorb(self, f: &RawField) -> (r: Option<VmSysCallReturn>) {
        let mut m = self;
        if f.number == 1 {
            let base = match m.result.take() {
                Some(SysCallResult::Handles(b)) => b,
                _ => CallHandles::fresh(),
            };
            match read_nested(base, &f.value) {
                Some(x) => {
                    m.result = Some(SysCallResult::Handles(x));
                    Some(m)
                },
                None => None,
            }
        } else if f.number == 2 {
            let base = match m.result.take() {
                Some(SysCallResult::Failure(b)) => b,
                _ => Failure::fresh(),
            };
            match read_nested(base, &f.value) {
                Some(x) => {
                    m.result = Some(SysCallResult::Failure(x));
                    Some(m)
                },
                None => None,
            }
        } else {
            Some(m)
        }
    }

    fn to_fields(&self) -> (r: Vec<RawField>) {
        let mut fs: Vec<RawField> = Vec::new();
        proof {
            assert(models(fs@) =~= Seq::<Field>::empty());
        }
        match &self.result {
            Some(SysCallResult::Handles(x)) => {
                push_nested(&mut fs, 1, x);
            },
            Some(SysCallResult::Failure(x)) => {
                push_nested(&mut fs, 2, x);
            },
            None => {
                proof {
                    assert(models(fs@) + Seq::<Field>::empty() =~= models(fs@));
                }
            },
        }
        proof {
            assert(models(fs@) =~= Self::fields(self@));
        }
        fs
    }

    proof fn lemma_unknown(m: VmSysCallReturnModel, f: Field) {
    }

    proof fn lemma_restore(m: VmSysCallReturnModel) {
        let st = |x: VmSysCallReturnModel, f: Field| Self::step(x, f);
        let b = Self::blank();
        let run0 = Seq::<Field>::empty();
        let part1 = sys_call_result_piece(m.result);
        let run1 = run0 + part1;
        lemma_join(run0, part1);
        assert(run1 =~= part1);
        lemma_fold_short(b, run0, st);
        match m.result {
            Some(SysCallResultModel::Handles(x)) => {
                lemma_present_pieces(1, Seq::empty(), encoded::<CallHandles>(x));
                lemma_round_trip::<CallHandles>(x);
            },
            Some(SysCallResultModel::Failure(x)) => {
                lemma_present_pieces(2, Seq::empty(), encoded::<Failure>(x));
                lemma_round_trip::<Failure>(x);
            },
            None => {},
        }
        lemma_fold_then(b, run0, b, part1, st);
        assert(fold(b, run1, st) == Some(m));
    }
}
} // verus!
