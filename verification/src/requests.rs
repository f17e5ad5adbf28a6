//! The messages that the host sends: one for each operation that takes
//! more than a number.
use vstd::prelude::*;
use crate::common::{Failure, FailureModel, Header, HeaderModel};
use crate::message::{
    encoded, fold, lemma_fold_short, lemma_round_trip, numbered, Message,
};
use crate::pieces::{
    as_bytes, as_fixed32, as_nested, as_number, as_packed, as_text, as_u32, bytes_piece,
    encoded_list, fixed32_piece, lemma_bytes_piece, lemma_fold_then, lemma_join,
    lemma_number_pieces, lemma_optional_nested, lemma_optional_pieces, lemma_packed_piece,
    lemma_present_pieces, lemma_text_piece, nested_list, no_items, number_piece, option_view,
    optional_nested, optional_number, optional_text, or_blank, packed_piece, present_bytes,
    push_bytes, push_fixed32, push_item, push_nested, push_nested_list, push_number,
    push_optional_nested, push_optional_number, push_optional_text, push_packed,
    push_present_bytes, push_text, read_bytes, read_fixed32, read_nested, read_number,
    read_packed, read_text, read_u32, text_piece, views, widen, widened,
};
use crate::wire::{lemma_payload_within, models, Field, RawField};

verus! {

/// Request to construct an engine instance.
#[derive(Clone, Debug, PartialEq, Eq)]
pub struct VmNewParameters {
    /// The headers of the request that started the invocation. Field 1.
    pub headers: Vec<Header>,
}

/// What a [`VmNewParameters`] holds.
pub struct VmNewParametersModel {
    pub headers: Seq<HeaderModel>,
}

impl View for VmNewParameters {
    type V = VmNewParametersModel;

    open spec fn view(&self) -> VmNewParametersModel {
        VmNewParametersModel { headers: views(self.headers@) }
    }
}

/// What one field does to a [`VmNewParameters`] being read.
pub open spec fn vm_new_parameters_step(
    m: VmNewParametersModel,
    f: Field,
) -> Option<VmNewParametersModel> {
    if f.number == 1 {
        match as_nested::<Header>(Header::blank(), f.value) {
            Some(x) => Some(VmNewParametersModel { headers: m.headers.push(x) }),
            None => None,
        }
    } else {
        Some(m)
    }
}

/// [`vm_new_parameters_step`] as a value.
pub open spec fn vm_new_parameters_stepper() -> spec_fn(
    VmNewParametersModel,
    Field,
) -> Option<VmNewParametersModel> {
    |x: VmNewParametersModel, f: Field| vm_new_parameters_step(x, f)
}

/// Reading the fields of a list of headers appends the list.
proof fn lemma_vm_new_parameters_headers(base: VmNewParametersModel, items: Seq<HeaderModel>)
    requires
        forall|i: int|
            0 <= i < items.len() ==> (#[trigger] encoded::<Header>(items[i])).len() <= u64::MAX,
    ensures
        numbered(nested_list(1, encoded_list::<Header>(items))),
        fold(
            base,
            nested_list(1, encoded_list::<Header>(items)),
            vm_new_parameters_stepper(),
        ) == Some(
            VmNewParametersModel { headers: base.headers + items },
        ),
    decreases items.len(),
{
    let piece = nested_list(1, encoded_list::<Header>(items));
    let st = vm_new_parameters_stepper();
    if items.len() == 0 {
        assert(base.headers + items =~= base.headers);
        lemma_fold_short(base, piece, st);
    } else {
        let front = items.drop_last();
        let before = nested_list(1, encoded_list::<Header>(front));
        lemma_vm_new_parameters_headers(base, front);
        assert(piece.drop_last() =~= before);
        lemma_round_trip::<Header>(items.last());
        assert((base.headers + front).push(items.last()) =~= base.headers + items);
    }
}

impl Message for VmNewParameters {
    open spec fn blank() -> VmNewParametersModel {
        VmNewParametersModel { headers: Seq::empty() }
    }

    open spec fn step(m: VmNewParametersModel, f: Field) -> Option<VmNewParametersModel> {
        vm_new_parameters_step(m, f)
    }

    open spec fn fields(m: VmNewParametersModel) -> Seq<Field> {
        nested_list(1, encoded_list::<Header>(m.headers))
    }

    open spec fn knows(number: u32) -> bool {
        number == 1
    }

    fn fresh() -> (r: VmNewParameters) {
        VmNewParameters { headers: no_items() }
    }

    fn absorb(self, f: &RawField) -> (r: Option<VmNewParameters>) {
        let mut m = self;
        if f.number == 1 {
            match read_nested(Header::fresh(), &f.value) {
                Some(x) => {
                    push_item(&mut m.headers, x);
                    Some(m)
                },
                None => None,
            }
        } else {
            Some(m)
        }
    }

    fn to_fields(&self) -> (r: Vec<RawField>) {
        let mut fs: Vec<RawField> = Vec::new();
        proof {
            assert(models(fs@) =~= Seq::<Field>::empty());
        }
        push_nested_list(&mut fs, 1, &self.headers);
        proof {
            assert(models(fs@) =~= Self::fields(self@));
        }
        fs
    }

    proof fn lemma_unknown(m: VmNewParametersModel, f: Field) {
    }

    proof fn lemma_restore(m: VmNewParametersModel) {
        let st = |x: VmNewParametersModel, f: Field| Self::step(x, f);
        assert(st =~= vm_new_parameters_stepper());
        let b = Self::blank();
        let run0 = Seq::<Field>::empty();
        let part1 = nested_list(1, encoded_list::<Header>(m.headers));
        let run1 = run0 + part1;
        lemma_join(run0, part1);
        assert(run1 =~= part1);
        lemma_fold_short(b, run0, st);
        assert forall|i: int| 0 <= i < m.headers.len() implies (#[trigger] encoded::<Header>(
            m.headers[i],
        )).len() <= u64::MAX by {
            lemma_payload_within(part1, i);
        }
        lemma_vm_new_parameters_headers(b, m.headers);
        assert(b.headers + m.headers =~= m.headers);
        lemma_fold_then(b, run0, b, part1, st);
        assert(fold(b, run1, st) == Some(m));
    }
}

/// Request to advance the engine by one step.
#[derive(Clone, Debug, PartialEq, Eq)]
pub struct VmDoProgressParameters {
    /// The notifications that the caller waits for. Field 1.
    pub handles: Vec<u32>,
}

/// What a [`VmDoProgressParameters`] holds.
pub struct VmDoProgressParametersModel {
    pub handles: Seq<u32>,
}

impl View for VmDoProgressParameters {
    type V = VmDoProgressParametersModel;

    open spec fn view(&self) -> VmDoProgressParametersModel {
        VmDoProgressParametersModel { handles: self.handles@ }
    }
}

impl Message for VmDoProgressParameters {
    open spec fn blank() -> VmDoProgressParametersModel {
        VmDoProgressParametersModel { handles: Seq::empty() }
    }

    open spec fn step(
        m: VmDoProgressParametersModel,
        f: Field,
    ) -> Option<VmDoProgressParametersModel> {
        if f.number == 1 {
            match as_packed(f.value) {
                Some(x) => Some(VmDoProgressParametersModel { handles: m.handles + x }),
                None => None,
            }
        } else {
            Some(m)
        }
    }

    open spec fn fields(m: VmDoProgressParametersModel) -> Seq<Field> {
        packed_piece(1, m.handles)
    }

    open spec fn knows(number: u32) -> bool {
        number == 1
    }

    fn fresh() -> (r: VmDoProgressParameters) {
        VmDoProgressParameters { handles: Vec::new() }
    }

    fn absorb(self, f: &RawField) -> (r: Option<VmDoProgressParameters>) {
        let mut m = self;
        if f.number == 1 {
            if read_packed(&mut m.handles, &f.value) {
                Some(m)
            } else {
                None
            }
        } else {
            Some(m)
        }
    }

    fn to_fields(&self) -> (r: Vec<RawField>) {
        let mut fs: Vec<RawField> = Vec::new();
        proof {
            assert(models(fs@) =~= Seq::<Field>::empty());
        }
        push_packed(&mut fs, 1, &self.handles);
        proof {
            assert(models(fs@) =~= Self::fields(self@));
        }
        fs
    }

    proof fn lemma_unknown(m: VmDoProgressParametersModel, f: Field) {
    }

    proof fn lemma_restore(m: VmDoProgressParametersModel) {
        let st = |x: VmDoProgressParametersModel, f: Field| Self::step(x, f);
        let b = Self::blank();
        let run0 = Seq::<Field>::empty();
        let part1 = packed_piece(1, m.handles);
        let run1 = run0 + part1;
        lemma_join(run0, part1);
        assert(run1 =~= part1);
        lemma_fold_short(b, run0, st);
        lemma_packed_piece(1, m.handles);
        lemma_fold_then(b, run0, b, part1, st);
        assert(fold(b, run1, st) == Some(m));
    }
}

/// Request to read one state entry.
#[derive(Clone, Debug, PartialEq, Eq)]
pub struct VmSysStateGetParameters {
    /// The key of the entry. Field 1.
    pub key: String,
}

/// What a [`VmSysStateGetParameters`] holds.
pub struct VmSysStateGetParametersModel {
    pub key: Seq<char>,
}

impl View for VmSysStateGetParameters {
    type V = VmSysStateGetParametersModel;

    open spec fn view(&self) -> VmSysStateGetParametersModel {
        VmSysStateGetParametersModel { key: self.key@ }
    }
}

impl Message for VmSysStateGetParameters {
    open spec fn blank() -> VmSysStateGetParametersModel {
        VmSysStateGetParametersModel { key: Seq::empty() }
    }

    open spec fn step(
        m: VmSysStateGetParametersModel,
        f: Field,
    ) -> Option<VmSysStateGetParametersModel> {
        if f.number == 1 {
            match as_text(f.value) {
                Some(x) => Some(VmSysStateGetParametersModel { key: x }),
                None => None,
            }
        } else {
            Some(m)
        }
    }

    open spec fn fields(m: VmSysStateGetParametersModel) -> Seq<Field> {
        text_piece(1, m.key)
    }

    open spec fn knows(number: u32) -> bool {
        number == 1
    }

    fn fresh() -> (r: VmSysStateGetParameters) {
        VmSysStateGetParameters { key: String::new() }
    }

    fn absorb(self, f: &RawField) -> (r: Option<VmSysStateGetParameters>) {
        let mut m = self;
        if f.number == 1 {
            match read_text(&f.value) {
                Some(x) => {
                    m.key = x;
                    Some(m)
                },
                None => None,
            }
        } else {
            Some(m)
        }
    }

    fn to_fields(&self) -> (r: Vec<RawField>) {
        let mut fs: Vec<RawField> = Vec::new();
        proof {
            assert(models(fs@) =~= Seq::<Field>::empty());
        }
        push_text(&mut fs, 1, &self.key);
        proof {
            assert(models(fs@) =~= Self::fields(self@));
        }
        fs
    }

    proof fn lemma_unknown(m: VmSysStateGetParametersModel, f: Field) {
    }

    proof fn lemma_restore(m: VmSysStateGetParametersModel) {
        let st = |x: VmSysStateGetParametersModel, f: Field| Self::step(x, f);
        let b = Self::blank();
        let run0 = Seq::<Field>::empty();
        let part1 = text_piece(1, m.key);
        let run1 = run0 + part1;
        lemma_join(run0, part1);
        assert(run1 =~= part1);
        lemma_fold_short(b, run0, st);
        lemma_text_piece(1, m.key);
        lemma_fold_then(b, run0, b, part1, st);
        assert(fold(b, run1, st) == Some(m));
    }
}

/// Request to write one state entry.
#[derive(Clone, Debug, PartialEq, Eq)]
pub struct VmSysStateSetParameters {
    /// The key of the entry. Field 1.
    pub key: String,
    /// The value to store. Field 2.
    pub value: Vec<u8>,
}

/// What a [`VmSysStateSetParameters`] holds.
pub struct VmSysStateSetParametersModel {
    pub key: Seq<char>,
    pub value: Seq<u8>,
}

impl View for VmSysStateSetParameters {
    type V = VmSysStateSetParametersModel;

    open spec fn view(&self) -> VmSysStateSetParametersModel {
        VmSysStateSetParametersModel { key: self.key@, value: self.value@ }
    }
}

impl Message for VmSysStateSetParameters {
    open spec fn blank() -> VmSysStateSetParametersModel {
        VmSysStateSetParametersModel { key: Seq::empty(), value: Seq::empty() }
    }

    open spec fn step(
        m: VmSysStateSetParametersModel,
        f: Field,
    ) -> Option<VmSysStateSetParametersModel> {
        if f.number == 1 {
            match as_text(f.value) {
                Some(x) => Some(VmSysStateSetParametersModel { key: x, value: m.value }),
                None => None,
            }
        } else if f.number == 2 {
            match as_bytes(f.value) {
                Some(x) => Some(VmSysStateSetParametersModel { key: m.key, value: x }),
                None => None,
            }
        } else {
            Some(m)
        }
    }

    open spec fn fields(m: VmSysStateSetParametersModel) -> Seq<Field> {
        text_piece(1, m.key) + bytes_piece(2, m.value)
    }

    open spec fn knows(number: u32) -> bool {
        number == 1 || number == 2
    }

    fn fresh() -> (r: VmSysStateSetParameters) {
        VmSysStateSetParameters { key: String::new(), value: Vec::new() }
    }

    fn absorb(self, f: &RawField) -> (r: Option<VmSysStateSetParameters>) {
        let mut m = self;
        if f.number == 1 {
            match read_text(&f.value) {
                Some(x) => {
                    m.key = x;
                    Some(m)
                },
                None => None,
            }
        } else if f.number == 2 {
            match read_bytes(&f.value) {
                Some(x) => {
                    m.value = x;
                    Some(m)
                },
                None => None,
            }
        } else {
            Some(m)
        }
    }

    fn to_fields(&self) -> (r: Vec<RawField>) {
        let mut fs: Vec<RawField> = Vec::new();
        proof {
            assert(models(fs@) =~= Seq::<Field>::empty());
        }
        push_text(&mut fs, 1, &self.key);
        push_bytes(&mut fs, 2, &self.value);
        proof {
            assert(models(fs@) =~= Self::fields(self@));
        }
        fs
    }

    proof fn lemma_unknown(m: VmSysStateSetParametersModel, f: Field) {
    }

    proof fn lemma_restore(m: VmSysStateSetParametersModel) {
        let st = |x: VmSysStateSetParametersModel, f: Field| Self::step(x, f);
        let b = Self::blank();
        let run0 = Seq::<Field>::empty();
        let part1 = text_piece(1, m.key);
        let run1 = run0 + part1;
        lemma_join(run0, part1);
        let part2 = bytes_piece(2, m.value);
        let run2 = run1 + part2;
        lemma_join(run1, part2);
        assert(run1 =~= part1);
        lemma_fold_short(b, run0, st);
        lemma_text_piece(1, m.key);
        lemma_fold_then(b, run0, b, part1, st);
        let state1 = VmSysStateSetParametersModel { key: m.key, value: b.value };
        assert(fold(b, run1, st) == Some(state1));
        lemma_bytes_piece(2, m.value);
        lemma_fold_then(b, run1, state1, part2, st);
        assert(fold(b, run2, st) == Some(m));
    }
}

/// Request to remove one state entry.
#[derive(Clone, Debug, PartialEq, Eq)]
pub struct VmSysStateClearParameters {
    /// The key of the entry. Field 1.
    pub key: String,
}

/// What a [`VmSysStateClearParameters`] holds.
pub struct VmSysStateClearParametersModel {
    pub key: Seq<char>,
}

impl View for VmSysStateClearParameters {
    type V = VmSysStateClearParametersModel;

    open spec fn view(&self) -> VmSysStateClearParametersModel {
        VmSysStateClearParametersModel { key: self.key@ }
    }
}

impl Message for VmSysStateClearParameters {
    open spec fn blank() -> VmSysStateClearParametersModel {
        VmSysStateClearParametersModel { key: Seq::empty() }
    }

    open spec fn step(
        m: VmSysStateClearParametersModel,
        f: Field,
    ) -> Option<VmSysStateClearParametersModel> {
        if f.number == 1 {
            match as_text(f.value) {
                Some(x) => Some(VmSysStateClearParametersModel { key: x }),
                None => None,
            }
        } else {
            Some(m)
        }
    }

    open spec fn fields(m: VmSysStateClearParametersModel) -> Seq<Field> {
        text_piece(1, m.key)
    }

    open spec fn knows(number: u32) -> bool {
        number == 1
    }

    fn fresh() -> (r: VmSysStateClearParameters) {
        VmSysStateClearParameters { key: String::new() }
    }

    fn absorb(self, f: &RawField) -> (r: Option<VmSysStateClearParameters>) {
        let mut m = self;
        if f.number == 1 {
            match read_text(&f.value) {
                Some(x) => {
                    m.key = x;
                    Some(m)
                },
                None => None,
            }
        } else {
            Some(m)
        }
    }

    fn to_fields(&self) -> (r: Vec<RawField>) {
        let mut fs: Vec<RawField> = Vec::new();
        proof {
            assert(models(fs@) =~= Seq::<Field>::empty());
        }
        push_text(&mut fs, 1, &self.key);
        proof {
            assert(models(fs@) =~= Self::fields(self@));
        }
        fs
    }

    proof fn lemma_unknown(m: VmSysStateClearParametersModel, f: Field) {
    }

    proof fn lemma_restore(m: VmSysStateClearParametersModel) {
        let st = |x: VmSysStateClearParametersModel, f: Field| Self::step(x, f);
        let b = Self::blank();
        let run0 = Seq::<Field>::empty();
        let part1 = text_piece(1, m.key);
        let run1 = run0 + part1;
        lemma_join(run0, part1);
        assert(run1 =~= part1);
        lemma_fold_short(b, run0, st);
        lemma_text_piece(1, m.key);
        lemma_fold_then(b, run0, b, part1, st);
        assert(fold(b, run1, st) == Some(m));
    }
}

/// Request to sleep until a point in time.
#[derive(Clone, Debug, PartialEq, Eq)]
pub struct VmSysSleepParameters {
    /// When to wake up, in milliseconds since the Unix epoch. Field 1.
    pub wake_up_time_since_unix_epoch_millis: u64,
    /// The caller's present time, in milliseconds since the Unix epoch. Field
    /// 2.
    pub now_since_unix_epoch_millis: u64,
    /// A name for the timer, for diagnostics. Field 3.
    pub name: String,
}

/// What a [`VmSysSleepParameters`] holds.
pub struct VmSysSleepParametersModel {
    pub wake_up_time_since_unix_epoch_millis: u64,
    pub now_since_unix_epoch_millis: u64,
    pub name: Seq<char>,
}

impl View for VmSysSleepParameters {
    type V = VmSysSleepParametersModel;

    open spec fn view(&self) -> VmSysSleepParametersModel {
        VmSysSleepParametersModel {
            wake_up_time_since_unix_epoch_millis: self.wake_up_time_since_unix_epoch_millis,
            now_since_unix_epoch_millis: self.now_since_unix_epoch_millis,
            name: self.name@,
        }
    }
}

impl Message for VmSysSleepParameters {
    open spec fn blank() -> VmSysSleepParametersModel {
        VmSysSleepParametersModel {
            wake_up_time_since_unix_epoch_millis: 0,
            now_since_unix_epoch_millis: 0,
            name: Seq::empty(),
        }
    }

    open spec fn step(m: VmSysSleepParametersModel, f: Field) -> Option<VmSysSleepParametersModel> {
        if f.number == 1 {
            match as_number(f.value) {
                Some(x) => Some(
                    VmSysSleepParametersModel {
                        wake_up_time_since_unix_epoch_millis: x,
                        now_since_unix_epoch_millis: m.now_since_unix_epoch_millis,
                        name: m.name,
                    },
                ),
                None => None,
            }
        } else if f.number == 2 {
            match as_number(f.value) {
                Some(x) => Some(
                    VmSysSleepParametersModel {
                        wake_up_time_since_unix_epoch_millis: m.wake_up_time_since_unix_epoch_millis,
                        now_since_unix_epoch_millis: x,
                        name: m.name,
                    },
                ),
                None => None,
            }
        } else if f.number == 3 {
            match as_text(f.value) {
                Some(x) => Some(
                    VmSysSleepParametersModel {
                        wake_up_time_since_unix_epoch_millis: m.wake_up_time_since_unix_epoch_millis,
                        now_since_unix_epoch_millis: m.now_since_unix_epoch_millis,
                        name: x,
                    },
                ),
                None => None,
            }
        } else {
            Some(m)
        }
    }

    open spec fn fields(m: VmSysSleepParametersModel) -> Seq<Field> {
        number_piece(1, m.wake_up_time_since_unix_epoch_millis)
            + number_piece(2, m.now_since_unix_epoch_millis)
            + text_piece(3, m.name)
    }

    open spec fn knows(number: u32) -> bool {
        number == 1 || number == 2 || number == 3
    }

    fn fresh() -> (r: VmSysSleepParameters) {
        VmSysSleepParameters {
            wake_up_time_since_unix_epoch_millis: 0,
            now_since_unix_epoch_millis: 0,
            name: String::new(),
        }
    }

    fn absorb(self, f: &RawField) -> (r: Option<VmSysSleepParameters>) {
        let mut m = self;
        if f.number == 1 {
            match read_number(&f.value) {
                Some(x) => {
                    m.wake_up_time_since_unix_epoch_millis = x;
                    Some(m)
                },
                None => None,
            }
        } else if f.number == 2 {
            match read_number(&f.value) {
                Some(x) => {
                    m.now_since_unix_epoch_millis = x;
                    Some(m)
                },
                None => None,
            }
        } else if f.number == 3 {
            match read_text(&f.value) {
                Some(x) => {
                    m.name = x;
                    Some(m)
                },
                None => None,
            }
        } else {
            Some(m)
        }
    }

    fn to_fields(&self) -> (r: Vec<RawField>) {
        let mut fs: Vec<RawField> = Vec::new();
        proof {
            assert(models(fs@) =~= Seq::<Field>::empty());
        }
        push_number(&mut fs, 1, self.wake_up_time_since_unix_epoch_millis);
        push_number(&mut fs, 2, self.now_since_unix_epoch_millis);
        push_text(&mut fs, 3, &self.name);
        proof {
            assert(models(fs@) =~= Self::fields(self@));
        }
        fs
    }

    proof fn lemma_unknown(m: VmSysSleepParametersModel, f: Field) {
    }

    proof fn lemma_restore(m: VmSysSleepParametersModel) {
        let st = |x: VmSysSleepParametersModel, f: Field| Self::step(x, f);
        let b = Self::blank();
        let run0 = Seq::<Field>::empty();
        let part1 = number_piece(1, m.wake_up_time_since_unix_epoch_millis);
        let run1 = run0 + part1;
        lemma_join(run0, part1);
        let part2 = number_piece(2, m.now_since_unix_epoch_millis);
        let run2 = run1 + part2;
        lemma_join(run1, part2);
        let part3 = text_piece(3, m.name);
        let run3 = run2 + part3;
        lemma_join(run2, part3);
        assert(run1 =~= part1);
        lemma_fold_short(b, run0, st);
        lemma_number_pieces(1, m.wake_up_time_since_unix_epoch_millis, 0);
        lemma_fold_then(b, run0, b, part1, st);
        let state1 = VmSysSleepParametersModel {
            wake_up_time_since_unix_epoch_millis: m.wake_up_time_since_unix_epoch_millis,
            now_since_unix_epoch_millis: b.now_since_unix_epoch_millis,
            name: b.name,
        };
        assert(fold(b, run1, st) == Some(state1));
        lemma_number_pieces(2, m.now_since_unix_epoch_millis, 0);
        lemma_fold_then(b, run1, state1, part2, st);
        let state2 = VmSysSleepParametersModel {
            wake_up_time_since_unix_epoch_millis: m.wake_up_time_since_unix_epoch_millis,
            now_since_unix_epoch_millis: m.now_since_unix_epoch_millis,
            name: b.name,
        };
        assert(fold(b, run2, st) == Some(state2));
        lemma_text_piece(3, m.name);
        lemma_fold_then(b, run2, state2, part3, st);
        assert(fold(b, run3, st) == Some(m));
    }
}

/// How the awakeable ended.
#[derive(Clone, Debug, PartialEq, Eq)]
pub enum AwakeableCompletion {
    /// It ended with this payload. Field 2.
    Success(Vec<u8>),
    /// It ended with this failure, for good. Field 3.
    Failure(Failure),
}

/// What a [`AwakeableCompletion`] holds.
pub enum AwakeableCompletionModel {
    Success(Seq<u8>),
    Failure(FailureModel),
}

impl View for AwakeableCompletion {
    type V = AwakeableCompletionModel;

    open spec fn view(&self) -> AwakeableCompletionModel {
        match self {
            AwakeableCompletion::Success(x) => AwakeableCompletionModel::Success(x@),
            AwakeableCompletion::Failure(x) => AwakeableCompletionModel::Failure(x@),
        }
    }
}

/// The field that a [`AwakeableCompletion`] is written as, if one is chosen.
pub open spec fn awakeable_completion_piece(r: Option<AwakeableCompletionModel>) -> Seq<Field> {
    match r {
        Some(AwakeableCompletionModel::Success(x)) => present_bytes(2, x),
        Some(AwakeableCompletionModel::Failure(x)) => present_bytes(3, encoded::<Failure>(x)),
        None => Seq::empty(),
    }
}

/// Request to complete an awakeable.
#[derive(Clone, Debug, PartialEq, Eq)]
pub struct VmSysCompleteAwakeableParameters {
    /// The identifier of the awakeable. Field 1.
    pub id: String,
    /// The outcome; a request without one is refused.
    pub result: Option<AwakeableCompletion>,
}

/// What a [`VmSysCompleteAwakeableParameters`] holds.
pub struct VmSysCompleteAwakeableParametersModel {
    pub id: Seq<char>,
    pub result: Option<AwakeableCompletionModel>,
}

impl View for VmSysCompleteAwakeableParameters {
    type V = VmSysCompleteAwakeableParametersModel;

    open spec fn view(&self) -> VmSysCompleteAwakeableParametersModel {
        VmSysCompleteAwakeableParametersModel { id: self.id@, result: option_view(self.result) }
    }
}

impl Message for VmSysCompleteAwakeableParameters {
    open spec fn blank() -> VmSysCompleteAwakeableParametersModel {
        VmSysCompleteAwakeableParametersModel { id: Seq::empty(), result: None }
    }

    open spec fn step(
        m: VmSysCompleteAwakeableParametersModel,
        f: Field,
    ) -> Option<VmSysCompleteAwakeableParametersModel> {
        if f.number == 1 {
            match as_text(f.value) {
                Some(x) => Some(VmSysCompleteAwakeableParametersModel { id: x, result: m.result }),
                None => None,
            }
        } else if f.number == 2 {
            match as_bytes(f.value) {
                Some(x) => Some(
                    VmSysCompleteAwakeableParametersModel {
                        id: m.id,
                        result: Some(AwakeableCompletionModel::Success(x)),
                    },
                ),
                None => None,
            }
        } else if f.number == 3 {
            let base = match m.result {
                Some(AwakeableCompletionModel::Failure(b)) => b,
                _ => Failure::blank(),
            };
            match as_nested::<Failure>(base, f.value) {
                Some(x) => Some(
                    VmSysCompleteAwakeableParametersModel {
                        id: m.id,
                        result: Some(AwakeableCompletionModel::Failure(x)),
                    },
                ),
                None => None,
            }
        } else {
            Some(m)
        }
    }

    open spec fn fields(m: VmSysCompleteAwakeableParametersModel) -> Seq<Field> {
        text_piece(1, m.id) + awakeable_completion_piece(m.result)
    }

    open spec fn knows(number: u32) -> bool {
        number == 1 || number == 2 || number == 3
    }

    fn fresh() -> (r: VmSysCompleteAwakeableParameters) {
        VmSysCompleteAwakeableParameters { id: String::new(), result: None }
    }

    fn absorb(self, f: &RawField) -> (r: Option<VmSysCompleteAwakeableParameters>) {
        let mut m = self;
        if f.number == 1 {
            match read_text(&f.value) {
                Some(x) => {
                    m.id = x;
                    Some(m)
                },
                None => None,
            }
        } else if f.number == 2 {
            match read_bytes(&f.value) {
                Some(x) => {
                    m.result = Some(AwakeableCompletion::Success(x));
                    Some(m)
                },
                None => None,
            }
        } else if f.number == 3 {
            let base = match m.result.take() {
                Some(AwakeableCompletion::Failure(b)) => b,
                _ => Failure::fresh(),
            };
            match read_nested(base, &f.value) {
                Some(x) => {
                    m.result = Some(AwakeableCompletion::Failure(x));
                    Some(m)
                },
                None => None,
            }
        } else {
            Some(m)
        }
    }

    fn to_fields(&self) -> (r: Vec<RawField>) {
        let mut fs: Vec<RawField> = Vec::new();
        proof {
            assert(models(fs@) =~= Seq::<Field>::empty());
        }
        push_text(&mut fs, 1, &self.id);
        match &self.result {
            Some(AwakeableCompletion::Success(x)) => {
                push_present_bytes(&mut fs, 2, x);
            },
            Some(AwakeableCompletion::Failure(x)) => {
                push_nested(&mut fs, 3, x);
            },
            None => {
                proof {
                    assert(models(fs@) + Seq::<Field>::empty() =~= models(fs@));
                }
            },
        }
        proof {
            assert(models(fs@) =~= Self::fields(self@));
        }
        fs
    }

    proof fn lemma_unknown(m: VmSysCompleteAwakeableParametersModel, f: Field) {
    }

    proof fn lemma_restore(m: VmSysCompleteAwakeableParametersModel) {
        let st = |x: VmSysCompleteAwakeableParametersModel, f: Field| Self::step(x, f);
        let b = Self::blank();
        let run0 = Seq::<Field>::empty();
        let part1 = text_piece(1, m.id);
        let run1 = run0 + part1;
        lemma_join(run0, part1);
        let part2 = awakeable_completion_piece(m.result);
        let run2 = run1 + part2;
        lemma_join(run1, part2);
        assert(run1 =~= part1);
        lemma_fold_short(b, run0, st);
        lemma_text_piece(1, m.id);
        lemma_fold_then(b, run0, b, part1, st);
        let state1 = VmSysCompleteAwakeableParametersModel { id: m.id, result: b.result };
        assert(fold(b, run1, st) == Some(state1));
        match m.result {
            Some(AwakeableCompletionModel::Success(x)) => {
                lemma_present_pieces(2, Seq::empty(), x);
            },
            Some(AwakeableCompletionModel::Failure(x)) => {
                lemma_present_pieces(3, Seq::empty(), encoded::<Failure>(x));
                lemma_round_trip::<Failure>(x);
            },
            None => {},
        }
        lemma_fold_then(b, run1, state1, part2, st);
        assert(fold(b, run2, st) == Some(m));
    }
}

/// Request to call a handler and wait for its result.
#[derive(Clone, Debug, PartialEq, Eq)]
pub struct VmSysCallParameters {
    /// The service to invoke. Field 1.
    pub service: String,
    /// The handler of that service. Field 2.
    pub handler: String,
    /// The routing key, for a keyed service. Field 3.
    pub key: Option<String>,
    /// The key that makes a repeated invocation the same one. Field 4.
    pub idempotency_key: Option<String>,
    /// Headers to pass along. Field 5.
    pub headers: Vec<Header>,
    /// The input of the invocation. Field 6.
    pub input: Vec<u8>,
}

/// What a [`VmSysCallParameters`] holds.
pub struct VmSysCallParametersModel {
    pub service: Seq<char>,
    pub handler: Seq<char>,
    pub key: Option<Seq<char>>,
    pub idempotency_key: Option<Seq<char>>,
    pub headers: Seq<HeaderModel>,
    pub input: Seq<u8>,
}

impl View for VmSysCallParameters {
    type V = VmSysCallParametersModel;

    open spec fn view(&self) -> VmSysCallParametersModel {
        VmSysCallParametersModel {
            service: self.service@,
            handler: self.handler@,
            key: option_view(self.key),
            idempotency_key: option_view(self.idempotency_key),
            headers: views(self.headers@),
            input: self.input@,
        }
    }
}

/// What one field does to a [`VmSysCallParameters`] being read.
pub open spec fn vm_sys_call_parameters_step(
    m: VmSysCallParametersModel,
    f: Field,
) -> Option<VmSysCallParametersModel> {
    if f.number == 1 {
        match as_text(f.value) {
            Some(x) => Some(
                VmSysCallParametersModel {
                    service: x,
                    handler: m.handler,
                    key: m.key,
                    idempotency_key: m.idempotency_key,
                    headers: m.headers,
                    input: m.input,
                },
            ),
            None => None,
        }
    } else if f.number == 2 {
        match as_text(f.value) {
            Some(x) => Some(
                VmSysCallParametersModel {
                    service: m.service,
                    handler: x,
                    key: m.key,
                    idempotency_key: m.idempotency_key,
                    headers: m.headers,
                    input: m.input,
                },
            ),
            None => None,
        }
    } else if f.number == 3 {
        match as_text(f.value) {
            Some(x) => Some(
                VmSysCallParametersModel {
                    service: m.service,
                    handler: m.handler,
                    key: Some(x),
                    idempotency_key: m.idempotency_key,
                    headers: m.headers,
                    input: m.input,
                },
            ),
            None => None,
        }
    } else if f.number == 4 {
        match as_text(f.value) {
            Some(x) => Some(
                VmSysCallParametersModel {
                    service: m.service,
                    handler: m.handler,
                    key: m.key,
                    idempotency_key: Some(x),
                    headers: m.headers,
                    input: m.input,
                },
            ),
            None => None,
        }
    } else if f.number == 5 {
        match as_nested::<Header>(Header::blank(), f.value) {
            Some(x) => Some(
                VmSysCallParametersModel {
                    service: m.service,
                    handler: m.handler,
                    key: m.key,
                    idempotency_key: m.idempotency_key,
                    headers: m.headers.push(x),
                    input: m.input,
                },
            ),
            None => None,
        }
    } else if f.number == 6 {
        match as_bytes(f.value) {
            Some(x) => Some(
                VmSysCallParametersModel {
                    service: m.service,
                    handler: m.handler,
                    key: m.key,
                    idempotency_key: m.idempotency_key,
                    headers: m.headers,
                    input: x,
                },
            ),
            None => None,
        }
    } else {
        Some(m)
    }
}

/// [`vm_sys_call_parameters_step`] as a value.
pub open spec fn vm_sys_call_parameters_stepper() -> spec_fn(
    VmSysCallParametersModel,
    Field,
) -> Option<VmSysCallParametersModel> {
    |x: VmSysCallParametersModel, f: Field| vm_sys_call_parameters_step(x, f)
}

/// Reading the fields of a list of headers appends the list.
proof fn lemma_vm_sys_call_parameters_headers(
    base: VmSysCallParametersModel,
    items: Seq<HeaderModel>,
)
    requires
        forall|i: int|
            0 <= i < items.len() ==> (#[trigger] encoded::<Header>(items[i])).len() <= u64::MAX,
    ensures
        numbered(nested_list(5, encoded_list::<Header>(items))),
        fold(
            base,
            nested_list(5, encoded_list::<Header>(items)),
            vm_sys_call_parameters_stepper(),
        ) == Some(
            VmSysCallParametersModel {
                service: base.service,
                handler: base.handler,
                key: base.key,
                idempotency_key: base.idempotency_key,
                headers: base.headers + items,
                input: base.input,
            },
        ),
    decreases items.len(),
{
    let piece = nested_list(5, encoded_list::<Header>(items));
    let st = vm_sys_call_parameters_stepper();
    if items.len() == 0 {
        assert(base.headers + items =~= base.headers);
        lemma_fold_short(base, piece, st);
    } else {
        let front = items.drop_last();
        let before = nested_list(5, encoded_list::<Header>(front));
        lemma_vm_sys_call_parameters_headers(base, front);
        assert(piece.drop_last() =~= before);
        lemma_round_trip::<Header>(items.last());
        assert((base.headers + front).push(items.last()) =~= base.headers + items);
    }
}

impl Message for VmSysCallParameters {
    open spec fn blank() -> VmSysCallParametersModel {
        VmSysCallParametersModel {
            service: Seq::empty(),
            handler: Seq::empty(),
            key: None,
            idempotency_key: None,
            headers: Seq::empty(),
            input: Seq::empty(),
        }
    }

    open spec fn step(m: VmSysCallParametersModel, f: Field) -> Option<VmSysCallParametersModel> {
        vm_sys_call_parameters_step(m, f)
    }

    open spec fn fields(m: VmSysCallParametersModel) -> Seq<Field> {
        text_piece(1, m.service)
            + text_piece(2, m.handler)
            + optional_text(3, m.key)
            + optional_text(4, m.idempotency_key)
            + nested_list(5, encoded_list::<Header>(m.headers))
            + bytes_piece(6, m.input)
    }

    open spec fn knows(number: u32) -> bool {
        number == 1 || number == 2 || number == 3 || number == 4 || number == 5 || number == 6
    }

    fn fresh() -> (r: VmSysCallParameters) {
        VmSysCallParameters {
            service: String::new(),
            handler: String::new(),
            key: None,
            idempotency_key: None,
            headers: no_items(),
            input: Vec::new(),
        }
    }

    fn absorb(self, f: &RawField) -> (r: Option<VmSysCallParameters>) {
        let mut m = self;
        if f.number == 1 {
            match read_text(&f.value) {
                Some(x) => {
                    m.service = x;
                    Some(m)
                },
                None => None,
            }
        } else if f.number == 2 {
            match read_text(&f.value) {
                Some(x) => {
                    m.handler = x;
                    Some(m)
                },
                None => None,
            }
        } else if f.number == 3 {
            match read_text(&f.value) {
                Some(x) => {
                    m.key = Some(x);
                    Some(m)
                },
                None => None,
            }
        } else if f.number == 4 {
            match read_text(&f.value) {
                Some(x) => {
                    m.idempotency_key = Some(x);
                    Some(m)
                },
                None => None,
            }
        } else if f.number == 5 {
            match read_nested(Header::fresh(), &f.value) {
                Some(x) => {
                    push_item(&mut m.headers, x);
                    Some(m)
                },
                None => None,
            }
        } else if f.number == 6 {
            match read_bytes(&f.value) {
                Some(x) => {
                    m.input = x;
                    Some(m)
                },
                None => None,
            }
        } else {
            Some(m)
        }
    }

    fn to_fields(&self) -> (r: Vec<RawField>) {
        let mut fs: Vec<RawField> = Vec::new();
        proof {
            assert(models(fs@) =~= Seq::<Field>::empty());
        }
        push_text(&mut fs, 1, &self.service);
        push_text(&mut fs, 2, &self.handler);
        push_optional_text(&mut fs, 3, &self.key);
        push_optional_text(&mut fs, 4, &self.idempotency_key);
        push_nested_list(&mut fs, 5, &self.headers);
        push_bytes(&mut fs, 6, &self.input);
        proof {
            assert(models(fs@) =~= Self::fields(self@));
        }
        fs
    }

    proof fn lemma_unknown(m: VmSysCallParametersModel, f: Field) {
    }

    proof fn lemma_restore(m: VmSysCallParametersModel) {
        let st = |x: VmSysCallParametersModel, f: Field| Self::step(x, f);
        assert(st =~= vm_sys_call_parameters_stepper());
        let b = Self::blank();
        let run0 = Seq::<Field>::empty();
        let part1 = text_piece(1, m.service);
        let run1 = run0 + part1;
        lemma_join(run0, part1);
        let part2 = text_piece(2, m.handler);
        let run2 = run1 + part2;
        lemma_join(run1, part2);
        let part3 = optional_text(3, m.key);
        let run3 = run2 + part3;
        lemma_join(run2, part3);
        let part4 = optional_text(4, m.idempotency_key);
        let run4 = run3 + part4;
        lemma_join(run3, part4);
        let part5 = nested_list(5, encoded_list::<Header>(m.headers));
        let run5 = run4 + part5;
        lemma_join(run4, part5);
        let part6 = bytes_piece(6, m.input);
        let run6 = run5 + part6;
        lemma_join(run5, part6);
        assert(run1 =~= part1);
        lemma_fold_short(b, run0, st);
        lemma_text_piece(1, m.service);
        lemma_fold_then(b, run0, b, part1, st);
        let state1 = VmSysCallParametersModel {
            service: m.service,
            handler: b.handler,
            key: b.key,
            idempotency_key: b.idempotency_key,
            headers: b.headers,
            input: b.input,
        };
        assert(fold(b, run1, st) == Some(state1));
        lemma_text_piece(2, m.handler);
        lemma_fold_then(b, run1, state1, part2, st);
        let state2 = VmSysCallParametersModel {
            service: m.service,
            handler: m.handler,
            key: b.key,
            idempotency_key: b.idempotency_key,
            headers: b.headers,
            input: b.input,
        };
        assert(fold(b, run2, st) == Some(state2));
        lemma_optional_pieces(3, m.key, None);
        lemma_fold_then(b, run2, state2, part3, st);
        let state3 = VmSysCallParametersModel {
            service: m.service,
            handler: m.handler,
            key: m.key,
            idempotency_key: b.idempotency_key,
            headers: b.headers,
            input: b.input,
        };
        assert(fold(b, run3, st) == Some(state3));
        lemma_optional_pieces(4, m.idempotency_key, None);
        lemma_fold_then(b, run3, state3, part4, st);
        let state4 = VmSysCallParametersModel {
            service: m.service,
            handler: m.handler,
            key: m.key,
            idempotency_key: m.idempotency_key,
            headers: b.headers,
            input: b.input,
        };
        assert(fold(b, run4, st) == Some(state4));
        assert forall|i: int| 0 <= i < m.headers.len() implies (#[trigger] encoded::<Header>(
            m.headers[i],
        )).len() <= u64::MAX by {
            lemma_payload_within(part5, i);
        }
        lemma_vm_sys_call_parameters_headers(state4, m.headers);
        assert(b.headers + m.headers =~= m.headers);
        lemma_fold_then(b, run4, state4, part5, st);
        let state5 = VmSysCallParametersModel {
            service: m.service,
            handler: m.handler,
            key: m.key,
            idempotency_key: m.idempotency_key,
            headers: m.headers,
            input: b.input,
        };
        assert(fold(b, run5, st) == Some(state5));
        lemma_bytes_piece(6, m.input);
        lemma_fold_then(b, run5, state5, part6, st);
        assert(fold(b, run6, st) == Some(m));
    }
}

/// Request to call a handler without waiting for its result.
#[derive(Clone, Debug, PartialEq, Eq)]
pub struct VmSysSendParameters {
    /// The service to invoke. Field 1.
    pub service: String,
    /// The handler of that service. Field 2.
    pub handler: String,
    /// The routing key, for a keyed service. Field 3.
    pub key: Option<String>,
    /// The key that makes a repeated invocation the same one. Field 4.
    pub idempotency_key: Option<String>,
    /// Headers to pass along. Field 5.
    pub headers: Vec<Header>,
    /// The input of the invocation. Field 6.
    pub input: Vec<u8>,
    /// When to run the call, in milliseconds since the Unix epoch; at once if
    /// absent. Field 7.
    pub execution_time_since_unix_epoch_millis: Option<u64>,
}

/// What a [`VmSysSendParameters`] holds.
pub struct VmSysSendParametersModel {
    pub service: Seq<char>,
    pub handler: Seq<char>,
    pub key: Option<Seq<char>>,
    pub idempotency_key: Option<Seq<char>>,
    pub headers: Seq<HeaderModel>,
    pub input: Seq<u8>,
    pub execution_time_since_unix_epoch_millis: Option<u64>,
}

impl View for VmSysSendParameters {
    type V = VmSysSendParametersModel;

    open spec fn view(&self) -> VmSysSendParametersModel {
        VmSysSendParametersModel {
            service: self.service@,
            handler: self.handler@,
            key: option_view(self.key),
            idempotency_key: option_view(self.idempotency_key),
            headers: views(self.headers@),
            input: self.input@,
            execution_time_since_unix_epoch_millis: self.execution_time_since_unix_epoch_millis,
        }
    }
}

/// What one field does to a [`VmSysSendParameters`] being read.
pub open spec fn vm_sys_send_parameters_step(
    m: VmSysSendParametersModel,
    f: Field,
) -> Option<VmSysSendParametersModel> {
    if f.number == 1 {
        match as_text(f.value) {
            Some(x) => Some(
                VmSysSendParametersModel {
                    service: x,
                    handler: m.handler,
                    key: m.key,
                    idempotency_key: m.idempotency_key,
                    headers: m.headers,
                    input: m.input,
                    execution_time_since_unix_epoch_millis: m.execution_time_since_unix_epoch_millis,
                },
            ),
            None => None,
        }
    } else if f.number == 2 {
        match as_text(f.value) {
            Some(x) => Some(
                VmSysSendParametersModel {
                    service: m.service,
                    handler: x,
                    key: m.key,
                    idempotency_key: m.idempotency_key,
                    headers: m.headers,
                    input: m.input,
                    execution_time_since_unix_epoch_millis: m.execution_time_since_unix_epoch_millis,
                },
            ),
            None => None,
        }
    } else if f.number == 3 {
        match as_text(f.value) {
            Some(x) => Some(
                VmSysSendParametersModel {
                    service: m.service,
                    handler: m.handler,
                    key: Some(x),
                    idempotency_key: m.idempotency_key,
                    headers: m.headers,
                    input: m.input,
                    execution_time_since_unix_epoch_millis: m.execution_time_since_unix_epoch_millis,
                },
            ),
            None => None,
        }
    } else if f.number == 4 {
        match as_text(f.value) {
            Some(x) => Some(
                VmSysSendParametersModel {
                    service: m.service,
                    handler: m.handler,
                    key: m.key,
                    idempotency_key: Some(x),
                    headers: m.headers,
                    input: m.input,
                    execution_time_since_unix_epoch_millis: m.execution_time_since_unix_epoch_millis,
                },
            ),
            None => None,
        }
    } else if f.number == 5 {
        match as_nested::<Header>(Header::blank(), f.value) {
            Some(x) => Some(
                VmSysSendParametersModel {
                    service: m.service,
                    handler: m.handler,
                    key: m.key,
                    idempotency_key: m.idempotency_key,
                    headers: m.headers.push(x),
                    input: m.input,
                    execution_time_since_unix_epoch_millis: m.execution_time_since_unix_epoch_millis,
                },
            ),
            None => None,
        }
    } else if f.number == 6 {
        match as_bytes(f.value) {
            Some(x) => Some(
                VmSysSendParametersModel {
                    service: m.service,
                    handler: m.handler,
                    key: m.key,
                    idempotency_key: m.idempotency_key,
                    headers: m.headers,
                    input: x,
                    execution_time_since_unix_epoch_millis: m.execution_time_since_unix_epoch_millis,
                },
            ),
            None => None,
        }
    } else if f.number == 7 {
        match as_number(f.value) {
            Some(x) => Some(
                VmSysSendParametersModel {
                    service: m.service,
                    handler: m.handler,
                    key: m.key,
                    idempotency_key: m.idempotency_key,
                    headers: m.headers,
                    input: m.input,
                    execution_time_since_unix_epoch_millis: Some(x),
                },
            ),
            None => None,
        }
    } else {
        Some(m)
    }
}

/// [`vm_sys_send_parameters_step`] as a value.
pub open spec fn vm_sys_send_parameters_stepper() -> spec_fn(
    VmSysSendParametersModel,
    Field,
) -> Option<VmSysSendParametersModel> {
    |x: VmSysSendParametersModel, f: Field| vm_sys_send_parameters_step(x, f)
}

/// Reading the fields of a list of headers appends the list.
proof fn lemma_vm_sys_send_parameters_headers(
    base: VmSysSendParametersModel,
    items: Seq<HeaderModel>,
)
    requires
        forall|i: int|
            0 <= i < items.len() ==> (#[trigger] encoded::<Header>(items[i])).len() <= u64::MAX,
    ensures
        numbered(nested_list(5, encoded_list::<Header>(items))),
        fold(
            base,
            nested_list(5, encoded_list::<Header>(items)),
            vm_sys_send_parameters_stepper(),
        ) == Some(
            VmSysSendParametersModel {
                service: base.service,
                handler: base.handler,
                key: base.key,
                idempotency_key: base.idempotency_key,
                headers: base.headers + items,
                input: base.input,
                execution_time_since_unix_epoch_millis: base.execution_time_since_unix_epoch_millis,
            },
        ),
    decreases items.len(),
{
    let piece = nested_list(5, encoded_list::<Header>(items));
    let st = vm_sys_send_parameters_stepper();
    if items.len() == 0 {
        assert(base.headers + items =~= base.headers);
        lemma_fold_short(base, piece, st);
    } else {
        let front = items.drop_last();
        let before = nested_list(5, encoded_list::<Header>(front));
        lemma_vm_sys_send_parameters_headers(base, front);
        assert(piece.drop_last() =~= before);
        lemma_round_trip::<Header>(items.last());
        assert((base.headers + front).push(items.last()) =~= base.headers + items);
    }
}

impl Message for VmSysSendParameters {
    open spec fn blank() -> VmSysSendParametersModel {
        VmSysSendParametersModel {
            service: Seq::empty(),
            handler: Seq::empty(),
            key: None,
            idempotency_key: None,
            headers: Seq::empty(),
            input: Seq::empty(),
            execution_time_since_unix_epoch_millis: None,
        }
    }

    open spec fn step(m: VmSysSendParametersModel, f: Field) -> Option<VmSysSendParametersModel> {
        vm_sys_send_parameters_step(m, f)
    }

    open spec fn fields(m: VmSysSendParametersModel) -> Seq<Field> {
        text_piece(1, m.service)
            + text_piece(2, m.handler)
            + optional_text(3, m.key)
            + optional_text(4, m.idempotency_key)
            + nested_list(5, encoded_list::<Header>(m.headers))
            + bytes_piece(6, m.input)
            + optional_number(7, m.execution_time_since_unix_epoch_millis)
    }

    open spec fn knows(number: u32) -> bool {
        number == 1
            || number == 2
            || number == 3
            || number == 4
            || number == 5
            || number == 6
            || number == 7
    }

    fn fresh() -> (r: VmSysSendParameters) {
        VmSysSendParameters {
            service: String::new(),
            handler: String::new(),
            key: None,
            idempotency_key: None,
            headers: no_items(),
            input: Vec::new(),
            execution_time_since_unix_epoch_millis: None,
        }
    }

    fn absorb(self, f: &RawField) -> (r: Option<VmSysSendParameters>) {
        let mut m = self;
        if f.number == 1 {
            match read_text(&f.value) {
                Some(x) => {
                    m.service = x;
                    Some(m)
                },
                None => None,
            }
        } else if f.number == 2 {
            match read_text(&f.value) {
                Some(x) => {
                    m.handler = x;
                    Some(m)
                },
                None => None,
            }
        } else if f.number == 3 {
            match read_text(&f.value) {
                Some(x) => {
                    m.key = Some(x);
                    Some(m)
                },
                None => None,
            }
        } else if f.number == 4 {
            match read_text(&f.value) {
                Some(x) => {
                    m.idempotency_key = Some(x);
                    Some(m)
                },
                None => None,
            }
        } else if f.number == 5 {
            match read_nested(Header::fresh(), &f.value) {
                Some(x) => {
                    push_item(&mut m.headers, x);
                    Some(m)
                },
                None => None,
            }
        } else if f.number == 6 {
            match read_bytes(&f.value) {
                Some(x) => {
                    m.input = x;
                    Some(m)
                },
                None => None,
            }
        } else if f.number == 7 {
            match read_number(&f.value) {
                Some(x) => {
                    m.execution_time_since_unix_epoch_millis = Some(x);
                    Some(m)
                },
                None => None,
            }
        } else {
            Some(m)
        }
    }

    fn to_fields(&self) -> (r: Vec<RawField>) {
        let mut fs: Vec<RawField> = Vec::new();
        proof {
            assert(models(fs@) =~= Seq::<Field>::empty());
        }
        push_text(&mut fs, 1, &self.service);
        push_text(&mut fs, 2, &self.handler);
        push_optional_text(&mut fs, 3, &self.key);
        push_optional_text(&mut fs, 4, &self.idempotency_key);
        push_nested_list(&mut fs, 5, &self.headers);
        push_bytes(&mut fs, 6, &self.input);
        push_optional_number(&mut fs, 7, self.execution_time_since_unix_epoch_millis);
        proof {
            assert(models(fs@) =~= Self::fields(self@));
        }
        fs
    }

    proof fn lemma_unknown(m: VmSysSendParametersModel, f: Field) {
    }

    proof fn lemma_restore(m: VmSysSendParametersModel) {
        let st = |x: VmSysSendParametersModel, f: Field| Self::step(x, f);
        assert(st =~= vm_sys_send_parameters_stepper());
        let b = Self::blank();
        let run0 = Seq::<Field>::empty();
        let part1 = text_piece(1, m.service);
        let run1 = run0 + part1;
        lemma_join(run0, part1);
        let part2 = text_piece(2, m.handler);
        let run2 = run1 + part2;
        lemma_join(run1, part2);
        let part3 = optional_text(3, m.key);
        let run3 = run2 + part3;
        lemma_join(run2, part3);
        let part4 = optional_text(4, m.idempotency_key);
        let run4 = run3 + part4;
        lemma_join(run3, part4);
        let part5 = nested_list(5, encoded_list::<Header>(m.headers));
        let run5 = run4 + part5;
        lemma_join(run4, part5);
        let part6 = bytes_piece(6, m.input);
        let run6 = run5 + part6;
        lemma_join(run5, part6);
        let part7 = optional_number(7, m.execution_time_since_unix_epoch_millis);
        let run7 = run6 + part7;
        lemma_join(run6, part7);
        assert(run1 =~= part1);
        lemma_fold_short(b, run0, st);
        lemma_text_piece(1, m.service);
        lemma_fold_then(b, run0, b, part1, st);
        let state1 = VmSysSendParametersModel {
            service: m.service,
            handler: b.handler,
            key: b.key,
            idempotency_key: b.idempotency_key,
            headers: b.headers,
            input: b.input,
            execution_time_since_unix_epoch_millis: b.execution_time_since_unix_epoch_millis,
        };
        assert(fold(b, run1, st) == Some(state1));
        lemma_text_piece(2, m.handler);
        lemma_fold_then(b, run1, state1, part2, st);
        let state2 = VmSysSendParametersModel {
            service: m.service,
            handler: m.handler,
            key: b.key,
            idempotency_key: b.idempotency_key,
            headers: b.headers,
            input: b.input,
            execution_time_since_unix_epoch_millis: b.execution_time_since_unix_epoch_millis,
        };
        assert(fold(b, run2, st) == Some(state2));
        lemma_optional_pieces(3, m.key, None);
        lemma_fold_then(b, run2, state2, part3, st);
        let state3 = VmSysSendParametersModel {
            service: m.service,
            handler: m.handler,
            key: m.key,
            idempotency_key: b.idempotency_key,
            headers: b.headers,
            input: b.input,
            execution_time_since_unix_epoch_millis: b.execution_time_since_unix_epoch_millis,
        };
        assert(fold(b, run3, st) == Some(state3));
        lemma_optional_pieces(4, m.idempotency_key, None);
        lemma_fold_then(b, run3, state3, part4, st);
        let state4 = VmSysSendParametersModel {
            service: m.service,
            handler: m.handler,
            key: m.key,
            idempotency_key: m.idempotency_key,
            headers: b.headers,
            input: b.input,
            execution_time_since_unix_epoch_millis: b.execution_time_since_unix_epoch_millis,
        };
        assert(fold(b, run4, st) == Some(state4));
        assert forall|i: int| 0 <= i < m.headers.len() implies (#[trigger] encoded::<Header>(
            m.headers[i],
        )).len() <= u64::MAX by {
            lemma_payload_within(part5, i);
        }
        lemma_vm_sys_send_parameters_headers(state4, m.headers);
        assert(b.headers + m.headers =~= m.headers);
        lemma_fold_then(b, run4, state4, part5, st);
        let state5 = VmSysSendParametersModel {
            service: m.service,
            handler: m.handler,
            key: m.key,
            idempotency_key: m.idempotency_key,
            headers: m.headers,
            input: b.input,
            execution_time_since_unix_epoch_millis: b.execution_time_since_unix_epoch_millis,
        };
        assert(fold(b, run5, st) == Some(state5));
        lemma_bytes_piece(6, m.input);
        lemma_fold_then(b, run5, state5, part6, st);
        let state6 = VmSysSendParametersModel {
            service: m.service,
            handler: m.handler,
            key: m.key,
            idempotency_key: m.idempotency_key,
            headers: m.headers,
            input: m.input,
            execution_time_since_unix_epoch_millis: b.execution_time_since_unix_epoch_millis,
        };
        assert(fold(b, run6, st) == Some(state6));
        lemma_optional_pieces(7, None, m.execution_time_since_unix_epoch_millis);
        lemma_fold_then(b, run6, state6, part7, st);
        assert(fold(b, run7, st) == Some(m));
    }
}

/// Request to cancel another invocation.
#[derive(Clone, Debug, PartialEq, Eq)]
pub struct VmSysCancelInvocationParameters {
    /// The invocation to cancel. Field 1.
    pub invocation_id: String,
}

/// What a [`VmSysCancelInvocationParameters`] holds.
pub struct VmSysCancelInvocationParametersModel {
    pub invocation_id: Seq<char>,
}

impl View for VmSysCancelInvocationParameters {
    type V = VmSysCancelInvocationParametersModel;

    open spec fn view(&self) -> VmSysCancelInvocationParametersModel {
        VmSysCancelInvocationParametersModel { invocation_id: self.invocation_id@ }
    }
}

impl Message for VmSysCancelInvocationParameters {
    open spec fn blank() -> VmSysCancelInvocationParametersModel {
        VmSysCancelInvocationParametersModel { invocation_id: Seq::empty() }
    }

    open spec fn step(
        m: VmSysCancelInvocationParametersModel,
        f: Field,
    ) -> Option<VmSysCancelInvocationParametersModel> {
        if f.number == 1 {
            match as_text(f.value) {
                Some(x) => Some(VmSysCancelInvocationParametersModel { invocation_id: x }),
                None => None,
            }
        } else {
            Some(m)
        }
    }

    open spec fn fields(m: VmSysCancelInvocationParametersModel) -> Seq<Field> {
        text_piece(1, m.invocation_id)
    }

    open spec fn knows(number: u32) -> bool {
        number == 1
    }

    fn fresh() -> (r: VmSysCancelInvocationParameters) {
        VmSysCancelInvocationParameters { invocation_id: String::new() }
    }

    fn absorb(self, f: &RawField) -> (r: Option<VmSysCancelInvocationParameters>) {
        let mut m = self;
        if f.number == 1 {
            match read_text(&f.value) {
                Some(x) => {
                    m.invocation_id = x;
                    Some(m)
                },
                None => None,
            }
        } else {
            Some(m)
        }
    }

    fn to_fields(&self) -> (r: Vec<RawField>) {
        let mut fs: Vec<RawField> = Vec::new();
        proof {
            assert(models(fs@) =~= Seq::<Field>::empty());
        }
        push_text(&mut fs, 1, &self.invocation_id);
        proof {
            assert(models(fs@) =~= Self::fields(self@));
        }
        fs
    }

    proof fn lemma_unknown(m: VmSysCancelInvocationParametersModel, f: Field) {
    }

    proof fn lemma_restore(m: VmSysCancelInvocationParametersModel) {
        let st = |x: VmSysCancelInvocationParametersModel, f: Field| Self::step(x, f);
        let b = Self::blank();
        let run0 = Seq::<Field>::empty();
        let part1 = text_piece(1, m.invocation_id);
        let run1 = run0 + part1;
        lemma_join(run0, part1);
        assert(run1 =~= part1);
        lemma_fold_short(b, run0, st);
        lemma_text_piece(1, m.invocation_id);
        lemma_fold_then(b, run0, b, part1, st);
        assert(fold(b, run1, st) == Some(m));
    }
}

/// Request to wait for the result of another invocation.
#[derive(Clone, Debug, PartialEq, Eq)]
pub struct VmSysAttachInvocationParameters {
    /// The invocation to attach to. Field 1.
    pub invocation_id: String,
}

/// What a [`VmSysAttachInvocationParameters`] holds.
pub struct VmSysAttachInvocationParametersModel {
    pub invocation_id: Seq<char>,
}

impl View for VmSysAttachInvocationParameters {
    type V = VmSysAttachInvocationParametersModel;

    open spec fn view(&self) -> VmSysAttachInvocationParametersModel {
        VmSysAttachInvocationParametersModel { invocation_id: self.invocation_id@ }
    }
}

impl Message for VmSysAttachInvocationParameters {
    open spec fn blank() -> VmSysAttachInvocationParametersModel {
        VmSysAttachInvocationParametersModel { invocation_id: Seq::empty() }
    }

    open spec fn step(
        m: VmSysAttachInvocationParametersModel,
        f: Field,
    ) -> Option<VmSysAttachInvocationParametersModel> {
        if f.number == 1 {
            match as_text(f.value) {
                Some(x) => Some(VmSysAttachInvocationParametersModel { invocation_id: x }),
                None => None,
            }
        } else {
            Some(m)
        }
    }

    open spec fn fields(m: VmSysAttachInvocationParametersModel) -> Seq<Field> {
        text_piece(1, m.invocation_id)
    }

    open spec fn knows(number: u32) -> bool {
        number == 1
    }

    fn fresh() -> (r: VmSysAttachInvocationParameters) {
        VmSysAttachInvocationParameters { invocation_id: String::new() }
    }

    fn absorb(self, f: &RawField) -> (r: Option<VmSysAttachInvocationParameters>) {
        let mut m = self;
        if f.number == 1 {
            match read_text(&f.value) {
                Some(x) => {
                    m.invocation_id = x;
                    Some(m)
                },
                None => None,
            }
        } else {
            Some(m)
        }
    }

    fn to_fields(&self) -> (r: Vec<RawField>) {
        let mut fs: Vec<RawField> = Vec::new();
        proof {
            assert(models(fs@) =~= Seq::<Field>::empty());
        }
        push_text(&mut fs, 1, &self.invocation_id);
        proof {
            assert(models(fs@) =~= Self::fields(self@));
        }
        fs
    }

    proof fn lemma_unknown(m: VmSysAttachInvocationParametersModel, f: Field) {
    }

    proof fn lemma_restore(m: VmSysAttachInvocationParametersModel) {
        let st = |x: VmSysAttachInvocationParametersModel, f: Field| Self::step(x, f);
        let b = Self::blank();
        let run0 = Seq::<Field>::empty();
        let part1 = text_piece(1, m.invocation_id);
        let run1 = run0 + part1;
        lemma_join(run0, part1);
        assert(run1 =~= part1);
        lemma_fold_short(b, run0, st);
        lemma_text_piece(1, m.invocation_id);
        lemma_fold_then(b, run0, b, part1, st);
        assert(fold(b, run1, st) == Some(m));
    }
}

/// Request to wait for a promise.
#[derive(Clone, Debug, PartialEq, Eq)]
pub struct VmSysPromiseGetParameters {
    /// The key of the promise. Field 1.
    pub key: String,
}

/// What a [`VmSysPromiseGetParameters`] holds.
pub struct VmSysPromiseGetParametersModel {
    pub key: Seq<char>,
}

impl View for VmSysPromiseGetParameters {
    type V = VmSysPromiseGetParametersModel;

    open spec fn view(&self) -> VmSysPromiseGetParametersModel {
        VmSysPromiseGetParametersModel { key: self.key@ }
    }
}

impl Message for VmSysPromiseGetParameters {
    open spec fn blank() -> VmSysPromiseGetParametersModel {
        VmSysPromiseGetParametersModel { key: Seq::empty() }
    }

    open spec fn step(
        m: VmSysPromiseGetParametersModel,
        f: Field,
    ) -> Option<VmSysPromiseGetParametersModel> {
        if f.number == 1 {
            match as_text(f.value) {
                Some(x) => Some(VmSysPromiseGetParametersModel { key: x }),
                None => None,
            }
        } else {
            Some(m)
        }
    }

    open spec fn fields(m: VmSysPromiseGetParametersModel) -> Seq<Field> {
        text_piece(1, m.key)
    }

    open spec fn knows(number: u32) -> bool {
        number == 1
    }

    fn fresh() -> (r: VmSysPromiseGetParameters) {
        VmSysPromiseGetParameters { key: String::new() }
    }

    fn absorb(self, f: &RawField) -> (r: Option<VmSysPromiseGetParameters>) {
        let mut m = self;
        if f.number == 1 {
            match read_text(&f.value) {
                Some(x) => {
                    m.key = x;
                    Some(m)
                },
                None => None,
            }
        } else {
            Some(m)
        }
    }

    fn to_fields(&self) -> (r: Vec<RawField>) {
        let mut fs: Vec<RawField> = Vec::new();
        proof {
            assert(models(fs@) =~= Seq::<Field>::empty());
        }
        push_text(&mut fs, 1, &self.key);
        proof {
            assert(models(fs@) =~= Self::fields(self@));
        }
        fs
    }

    proof fn lemma_unknown(m: VmSysPromiseGetParametersModel, f: Field) {
    }

    proof fn lemma_restore(m: VmSysPromiseGetParametersModel) {
        let st = |x: VmSysPromiseGetParametersModel, f: Field| Self::step(x, f);
        let b = Self::blank();
        let run0 = Seq::<Field>::empty();
        let part1 = text_piece(1, m.key);
        let run1 = run0 + part1;
        lemma_join(run0, part1);
        assert(run1 =~= part1);
        lemma_fold_short(b, run0, st);
        lemma_text_piece(1, m.key);
        lemma_fold_then(b, run0, b, part1, st);
        assert(fold(b, run1, st) == Some(m));
    }
}

/// Request to look at a promise without waiting.
#[derive(Clone, Debug, PartialEq, Eq)]
pub struct VmSysPromisePeekParameters {
    /// The key of the promise. Field 1.
    pub key: String,
}

/// What a [`VmSysPromisePeekParameters`] holds.
pub struct VmSysPromisePeekParametersModel {
    pub key: Seq<char>,
}

impl View for VmSysPromisePeekParameters {
    type V = VmSysPromisePeekParametersModel;

    open spec fn view(&self) -> VmSysPromisePeekParametersModel {
        VmSysPromisePeekParametersModel { key: self.key@ }
    }
}

impl Message for VmSysPromisePeekParameters {
    open spec fn blank() -> VmSysPromisePeekParametersModel {
        VmSysPromisePeekParametersModel { key: Seq::empty() }
    }

    open spec fn step(
        m: VmSysPromisePeekParametersModel,
        f: Field,
    ) -> Option<VmSysPromisePeekParametersModel> {
        if f.number == 1 {
            match as_text(f.value) {
                Some(x) => Some(VmSysPromisePeekParametersModel { key: x }),
                None => None,
            }
        } else {
            Some(m)
        }
    }

    open spec fn fields(m: VmSysPromisePeekParametersModel) -> Seq<Field> {
        text_piece(1, m.key)
    }

    open spec fn knows(number: u32) -> bool {
        number == 1
    }

    fn fresh() -> (r: VmSysPromisePeekParameters) {
        VmSysPromisePeekParameters { key: String::new() }
    }

    fn absorb(self, f: &RawField) -> (r: Option<VmSysPromisePeekParameters>) {
        let mut m = self;
        if f.number == 1 {
            match read_text(&f.value) {
                Some(x) => {
                    m.key = x;
                    Some(m)
                },
                None => None,
            }
        } else {
            Some(m)
        }
    }

    fn to_fields(&self) -> (r: Vec<RawField>) {
        let mut fs: Vec<RawField> = Vec::new();
        proof {
            assert(models(fs@) =~= Seq::<Field>::empty());
        }
        push_text(&mut fs, 1, &self.key);
        proof {
            assert(models(fs@) =~= Self::fields(self@));
        }
        fs
    }

    proof fn lemma_unknown(m: VmSysPromisePeekParametersModel, f: Field) {
    }

    proof fn lemma_restore(m: VmSysPromisePeekParametersModel) {
        let st = |x: VmSysPromisePeekParametersModel, f: Field| Self::step(x, f);
        let b = Self::blank();
        let run0 = Seq::<Field>::empty();
        let part1 = text_piece(1, m.key);
        let run1 = run0 + part1;
        lemma_join(run0, part1);
        assert(run1 =~= part1);
        lemma_fold_short(b, run0, st);
        lemma_text_piece(1, m.key);
        lemma_fold_then(b, run0, b, part1, st);
        assert(fold(b, run1, st) == Some(m));
    }
}

/// How the promise ended.
#[derive(Clone, Debug, PartialEq, Eq)]
pub enum PromiseCompletion {
    /// It ended with this payload. Field 2.
    Success(Vec<u8>),
    /// It ended with this failure, for good. Field 3.
    Failure(Failure),
}

/// What a [`PromiseCompletion`] holds.
pub enum PromiseCompletionModel {
    Success(Seq<u8>),
    Failure(FailureModel),
}

impl View for PromiseCompletion {
    type V = PromiseCompletionModel;

    open spec fn view(&self) -> PromiseCompletionModel {
        match self {
            PromiseCompletion::Success(x) => PromiseCompletionModel::Success(x@),
            PromiseCompletion::Failure(x) => PromiseCompletionModel::Failure(x@),
        }
    }
}

/// The field that a [`PromiseCompletion`] is written as, if one is chosen.
pub open spec fn promise_completion_piece(r: Option<PromiseCompletionModel>) -> Seq<Field> {
    match r {
        Some(PromiseCompletionModel::Success(x)) => present_bytes(2, x),
        Some(PromiseCompletionModel::Failure(x)) => present_bytes(3, encoded::<Failure>(x)),
        None => Seq::empty(),
    }
}

/// Request to complete a promise.
#[derive(Clone, Debug, PartialEq, Eq)]
pub struct VmSysPromiseCompleteParameters {
    /// The key of the promise. Field 1.
    pub id: String,
    /// The outcome; a request without one is refused.
    pub result: Option<PromiseCompletion>,
}

/// What a [`VmSysPromiseCompleteParameters`] holds.
pub struct VmSysPromiseCompleteParametersModel {
    pub id: Seq<char>,
    pub result: Option<PromiseCompletionModel>,
}

impl View for VmSysPromiseCompleteParameters {
    type V = VmSysPromiseCompleteParametersModel;

    open spec fn view(&self) -> VmSysPromiseCompleteParametersModel {
        VmSysPromiseCompleteParametersModel { id: self.id@, result: option_view(self.result) }
    }
}

impl Message for VmSysPromiseCompleteParameters {
    open spec fn blank() -> VmSysPromiseCompleteParametersModel {
        VmSysPromiseCompleteParametersModel { id: Seq::empty(), result: None }
    }

    open spec fn step(
        m: VmSysPromiseCompleteParametersModel,
        f: Field,
    ) -> Option<VmSysPromiseCompleteParametersModel> {
        if f.number == 1 {
            match as_text(f.value) {
                Some(x) => Some(VmSysPromiseCompleteParametersModel { id: x, result: m.result }),
                None => None,
            }
        } else if f.number == 2 {
            match as_bytes(f.value) {
                Some(x) => Some(
                    VmSysPromiseCompleteParametersModel {
                        id: m.id,
                        result: Some(PromiseCompletionModel::Success(x)),
                    },
                ),
                None => None,
            }
        } else if f.number == 3 {
            let base = match m.result {
                Some(PromiseCompletionModel::Failure(b)) => b,
                _ => Failure::blank(),
            };
            match as_nested::<Failure>(base, f.value) {
                Some(x) => Some(
                    VmSysPromiseCompleteParametersModel {
                        id: m.id,
                        result: Some(PromiseCompletionModel::Failure(x)),
                    },
                ),
                None => None,
            }
        } else {
            Some(m)
        }
    }

    open spec fn fields(m: VmSysPromiseCompleteParametersModel) -> Seq<Field> {
        text_piece(1, m.id) + promise_completion_piece(m.result)
    }

    open spec fn knows(number: u32) -> bool {
        number == 1 || number == 2 || number == 3
    }

    fn fresh() -> (r: VmSysPromiseCompleteParameters) {
        VmSysPromiseCompleteParameters { id: String::new(), result: None }
    }

    fn absorb(self, f: &RawField) -> (r: Option<VmSysPromiseCompleteParameters>) {
        let mut m = self;
        if f.number == 1 {
            match read_text(&f.value) {
                Some(x) => {
                    m.id = x;
                    Some(m)
                },
                None => None,
            }
        } else if f.number == 2 {
            match read_bytes(&f.value) {
                Some(x) => {
                    m.result = Some(PromiseCompletion::Success(x));
                    Some(m)
                },
                None => None,
            }
        } else if f.number == 3 {
            let base = match m.result.take() {
                Some(PromiseCompletion::Failure(b)) => b,
                _ => Failure::fresh(),
            };
            match read_nested(base, &f.value) {
                Some(x) => {
                    m.result = Some(PromiseCompletion::Failure(x));
                    Some(m)
                },
                None => None,
            }
        } else {
            Some(m)
        }
    }

    fn to_fields(&self) -> (r: Vec<RawField>) {
        let mut fs: Vec<RawField> = Vec::new();
        proof {
            assert(models(fs@) =~= Seq::<Field>::empty());
        }
        push_text(&mut fs, 1, &self.id);
        match &self.result {
            Some(PromiseCompletion::Success(x)) => {
                push_present_bytes(&mut fs, 2, x);
            },
            Some(PromiseCompletion::Failure(x)) => {
                push_nested(&mut fs, 3, x);
            },
            None => {
                proof {
                    assert(models(fs@) + Seq::<Field>::empty() =~= models(fs@));
                }
            },
        }
        proof {
            assert(models(fs@) =~= Self::fields(self@));
        }
        fs
    }

    proof fn lemma_unknown(m: VmSysPromiseCompleteParametersModel, f: Field) {
    }

    proof fn lemma_restore(m: VmSysPromiseCompleteParametersModel) {
        let st = |x: VmSysPromiseCompleteParametersModel, f: Field| Self::step(x, f);
        let b = Self::blank();
        let run0 = Seq::<Field>::empty();
        let part1 = text_piece(1, m.id);
        let run1 = run0 + part1;
        lemma_join(run0, part1);
        let part2 = promise_completion_piece(m.result);
        let run2 = run1 + part2;
        lemma_join(run1, part2);
        assert(run1 =~= part1);
        lemma_fold_short(b, run0, st);
        lemma_text_piece(1, m.id);
        lemma_fold_then(b, run0, b, part1, st);
        let state1 = VmSysPromiseCompleteParametersModel { id: m.id, result: b.result };
        assert(fold(b, run1, st) == Some(state1));
        match m.result {
            Some(PromiseCompletionModel::Success(x)) => {
                lemma_present_pieces(2, Seq::empty(), x);
            },
            Some(PromiseCompletionModel::Failure(x)) => {
                lemma_present_pieces(3, Seq::empty(), encoded::<Failure>(x));
                lemma_round_trip::<Failure>(x);
            },
            None => {},
        }
        lemma_fold_then(b, run1, state1, part2, st);
        assert(fold(b, run2, st) == Some(m));
    }
}

/// Request to open a run block.
#[derive(Clone, Debug, PartialEq, Eq)]
pub struct VmSysRunParameters {
    /// A name for the run block. Field 1.
    pub name: String,
}

/// What a [`VmSysRunParameters`] holds.
pub struct VmSysRunParametersModel {
    pub name: Seq<char>,
}

impl View for VmSysRunParameters {
    type V = VmSysRunParametersModel;

    open spec fn view(&self) -> VmSysRunParametersModel {
        VmSysRunParametersModel { name: self.name@ }
    }
}

impl Message for VmSysRunParameters {
    open spec fn blank() -> VmSysRunParametersModel {
        VmSysRunParametersModel { name: Seq::empty() }
    }

    open spec fn step(m: VmSysRunParametersModel, f: Field) -> Option<VmSysRunParametersModel> {
        if f.number == 1 {
            match as_text(f.value) {
                Some(x) => Some(VmSysRunParametersModel { name: x }),
                None => None,
            }
        } else {
            Some(m)
        }
    }

    open spec fn fields(m: VmSysRunParametersModel) -> Seq<Field> {
        text_piece(1, m.name)
    }

    open spec fn knows(number: u32) -> bool {
        number == 1
    }

    fn fresh() -> (r: VmSysRunParameters) {
        VmSysRunParameters { name: String::new() }
    }

    fn absorb(self, f: &RawField) -> (r: Option<VmSysRunParameters>) {
        let mut m = self;
        if f.number == 1 {
            match read_text(&f.value) {
                Some(x) => {
                    m.name = x;
                    Some(m)
                },
                None => None,
            }
        } else {
            Some(m)
        }
    }

    fn to_fields(&self) -> (r: Vec<RawField>) {
        let mut fs: Vec<RawField> = Vec::new();
        proof {
            assert(models(fs@) =~= Seq::<Field>::empty());
        }
        push_text(&mut fs, 1, &self.name);
        proof {
            assert(models(fs@) =~= Self::fields(self@));
        }
        fs
    }

    proof fn lemma_unknown(m: VmSysRunParametersModel, f: Field) {
    }

    proof fn lemma_restore(m: VmSysRunParametersModel) {
        let st = |x: VmSysRunParametersModel, f: Field| Self::step(x, f);
        let b = Self::blank();
        let run0 = Seq::<Field>::empty();
        let part1 = text_piece(1, m.name);
        let run1 = run0 + part1;
        lemma_join(run0, part1);
        assert(run1 =~= part1);
        lemma_fold_short(b, run0, st);
        lemma_text_piece(1, m.name);
        lemma_fold_then(b, run0, b, part1, st);
        assert(fold(b, run1, st) == Some(m));
    }
}

/// An exponential retry policy. Intervals grow by `factor` from the initial
/// one, up to the largest; retrying stops after a number of attempts or a total
/// duration, where given.
#[derive(Clone, Debug, PartialEq, Eq)]
pub struct RetryPolicyParameters {
    /// The interval before the first retry, in milliseconds. Field 1.
    pub initial_interval_millis: u64,
    /// The growth factor, as the bits of a single-precision number. Field 2.
    pub factor: u32,
    /// The largest interval, in milliseconds. Field 3.
    pub max_interval_millis: Option<u64>,
    /// The largest number of attempts. Field 4.
    pub max_attempts: Option<u32>,
    /// The longest time to go on retrying, in milliseconds. Field 5.
    pub max_duration_millis: Option<u64>,
}

/// What a [`RetryPolicyParameters`] holds.
pub struct RetryPolicyParametersModel {
    pub initial_interval_millis: u64,
    pub factor: u32,
    pub max_interval_millis: Option<u64>,
    pub max_attempts: Option<u32>,
    pub max_duration_millis: Option<u64>,
}

impl View for RetryPolicyParameters {
    type V = RetryPolicyParametersModel;

    open spec fn view(&self) -> RetryPolicyParametersModel {
        RetryPolicyParametersModel {
            initial_interval_millis: self.initial_interval_millis,
            factor: self.factor,
            max_interval_millis: self.max_interval_millis,
            max_attempts: self.max_attempts,
            max_duration_millis: self.max_duration_millis,
        }
    }
}

impl Message for RetryPolicyParameters {
    open spec fn blank() -> RetryPolicyParametersModel {
        RetryPolicyParametersModel {
            initial_interval_millis: 0,
            factor: 0,
            max_interval_millis: None,
            max_attempts: None,
            max_duration_millis: None,
        }
    }

    open spec fn step(
        m: RetryPolicyParametersModel,
        f: Field,
    ) -> Option<RetryPolicyParametersModel> {
        if f.number == 1 {
            match as_number(f.value) {
                Some(x) => Some(
                    RetryPolicyParametersModel {
                        initial_interval_millis: x,
                        factor: m.factor,
                        max_interval_millis: m.max_interval_millis,
                        max_attempts: m.max_attempts,
                        max_duration_millis: m.max_duration_millis,
                    },
                ),
                None => None,
            }
        } else if f.number == 2 {
            match as_fixed32(f.value) {
                Some(x) => Some(
                    RetryPolicyParametersModel {
                        initial_interval_millis: m.initial_interval_millis,
                        factor: x,
                        max_interval_millis: m.max_interval_millis,
                        max_attempts: m.max_attempts,
                        max_duration_millis: m.max_duration_millis,
                    },
                ),
                None => None,
            }
        } else if f.number == 3 {
            match as_number(f.value) {
                Some(x) => Some(
                    RetryPolicyParametersModel {
                        initial_interval_millis: m.initial_interval_millis,
                        factor: m.factor,
                        max_interval_millis: Some(x),
                        max_attempts: m.max_attempts,
                        max_duration_millis: m.max_duration_millis,
                    },
                ),
                None => None,
            }
        } else if f.number == 4 {
            match as_u32(f.value) {
                Some(x) => Some(
                    RetryPolicyParametersModel {
                        initial_interval_millis: m.initial_interval_millis,
                        factor: m.factor,
                        max_interval_millis: m.max_interval_millis,
                        max_attempts: Some(x),
                        max_duration_millis: m.max_duration_millis,
                    },
                ),
                None => None,
            }
        } else if f.number == 5 {
            match as_number(f.value) {
                Some(x) => Some(
                    RetryPolicyParametersModel {
                        initial_interval_millis: m.initial_interval_millis,
                        factor: m.factor,
                        max_interval_millis: m.max_interval_millis,
                        max_attempts: m.max_attempts,
                        max_duration_millis: Some(x),
                    },
                ),
                None => None,
            }
        } else {
            Some(m)
        }
    }

    open spec fn fields(m: RetryPolicyParametersModel) -> Seq<Field> {
        number_piece(1, m.initial_interval_millis)
            + fixed32_piece(2, m.factor)
            + optional_number(3, m.max_interval_millis)
            + optional_number(4, widen(m.max_attempts))
            + optional_number(5, m.max_duration_millis)
    }

    open spec fn knows(number: u32) -> bool {
        number == 1 || number == 2 || number == 3 || number == 4 || number == 5
    }

    fn fresh() -> (r: RetryPolicyParameters) {
        RetryPolicyParameters {
            initial_interval_millis: 0,
            factor: 0,
            max_interval_millis: None,
            max_attempts: None,
            max_duration_millis: None,
        }
    }

    fn absorb(self, f: &RawField) -> (r: Option<RetryPolicyParameters>) {
        let mut m = self;
        if f.number == 1 {
            match read_number(&f.value) {
                Some(x) => {
                    m.initial_interval_millis = x;
                    Some(m)
                },
                None => None,
            }
        } else if f.number == 2 {
            match read_fixed32(&f.value) {
                Some(x) => {
                    m.factor = x;
                    Some(m)
                },
                None => None,
            }
        } else if f.number == 3 {
            match read_number(&f.value) {
                Some(x) => {
                    m.max_interval_millis = Some(x);
                    Some(m)
                },
                None => None,
            }
        } else if f.number == 4 {
            match read_u32(&f.value) {
                Some(x) => {
                    m.max_attempts = Some(x);
                    Some(m)
                },
                None => None,
            }
        } else if f.number == 5 {
            match read_number(&f.value) {
                Some(x) => {
                    m.max_duration_millis = Some(x);
                    Some(m)
                },
                None => None,
            }
        } else {
            Some(m)
        }
    }

    fn to_fields(&self) -> (r: Vec<RawField>) {
        let mut fs: Vec<RawField> = Vec::new();
        proof {
            assert(models(fs@) =~= Seq::<Field>::empty());
        }
        push_number(&mut fs, 1, self.initial_interval_millis);
        push_fixed32(&mut fs, 2, self.factor);
        push_optional_number(&mut fs, 3, self.max_interval_millis);
        push_optional_number(&mut fs, 4, widened(self.max_attempts));
        push_optional_number(&mut fs, 5, self.max_duration_millis);
        proof {
            assert(models(fs@) =~= Self::fields(self@));
        }
        fs
    }

    proof fn lemma_unknown(m: RetryPolicyParametersModel, f: Field) {
    }

    proof fn lemma_restore(m: RetryPolicyParametersModel) {
        let st = |x: RetryPolicyParametersModel, f: Field| Self::step(x, f);
        let b = Self::blank();
        let run0 = Seq::<Field>::empty();
        let part1 = number_piece(1, m.initial_interval_millis);
        let run1 = run0 + part1;
        lemma_join(run0, part1);
        let part2 = fixed32_piece(2, m.factor);
        let run2 = run1 + part2;
        lemma_join(run1, part2);
        let part3 = optional_number(3, m.max_interval_millis);
        let run3 = run2 + part3;
        lemma_join(run2, part3);
        let part4 = optional_number(4, widen(m.max_attempts));
        let run4 = run3 + part4;
        lemma_join(run3, part4);
        let part5 = optional_number(5, m.max_duration_millis);
        let run5 = run4 + part5;
        lemma_join(run4, part5);
        assert(run1 =~= part1);
        lemma_fold_short(b, run0, st);
        lemma_number_pieces(1, m.initial_interval_millis, 0);
        lemma_fold_then(b, run0, b, part1, st);
        let state1 = RetryPolicyParametersModel {
            initial_interval_millis: m.initial_interval_millis,
            factor: b.factor,
            max_interval_millis: b.max_interval_millis,
            max_attempts: b.max_attempts,
            max_duration_millis: b.max_duration_millis,
        };
        assert(fold(b, run1, st) == Some(state1));
        lemma_number_pieces(2, 0, m.factor);
        lemma_fold_then(b, run1, state1, part2, st);
        let state2 = RetryPolicyParametersModel {
            initial_interval_millis: m.initial_interval_millis,
            factor: m.factor,
            max_interval_millis: b.max_interval_millis,
            max_attempts: b.max_attempts,
            max_duration_millis: b.max_duration_millis,
        };
        assert(fold(b, run2, st) == Some(state2));
        lemma_optional_pieces(3, None, m.max_interval_millis);
        lemma_fold_then(b, run2, state2, part3, st);
        let state3 = RetryPolicyParametersModel {
            initial_interval_millis: m.initial_interval_millis,
            factor: m.factor,
            max_interval_millis: m.max_interval_millis,
            max_attempts: b.max_attempts,
            max_duration_millis: b.max_duration_millis,
        };
        assert(fold(b, run3, st) == Some(state3));
        lemma_optional_pieces(4, None, widen(m.max_attempts));
        if m.max_attempts is Some {
            lemma_number_pieces(4, 0, m.max_attempts.unwrap());
        }
        lemma_fold_then(b, run3, state3, part4, st);
        let state4 = RetryPolicyParametersModel {
            initial_interval_millis: m.initial_interval_millis,
            factor: m.factor,
            max_interval_millis: m.max_interval_millis,
            max_attempts: m.max_attempts,
            max_duration_millis: b.max_duration_millis,
        };
        assert(fold(b, run4, st) == Some(state4));
        lemma_optional_pieces(5, None, m.max_duration_millis);
        lemma_fold_then(b, run4, state4, part5, st);
        assert(fold(b, run5, st) == Some(m));
    }
}

/// How a run block ended.
#[derive(Clone, Debug, PartialEq, Eq)]
pub enum RunCompletion {
    /// It produced this payload. Field 2.
    Success(Vec<u8>),
    /// It failed for good. Field 3.
    TerminalFailure(Failure),
    /// It failed, and may be tried again. Field 4.
    RetryableFailure(Failure),
}

/// What a [`RunCompletion`] holds.
pub enum RunCompletionModel {
    Success(Seq<u8>),
    TerminalFailure(FailureModel),
    RetryableFailure(FailureModel),
}

impl View for RunCompletion {
    type V = RunCompletionModel;

    open spec fn view(&self) -> RunCompletionModel {
        match self {
            RunCompletion::Success(x) => RunCompletionModel::Success(x@),
            RunCompletion::TerminalFailure(x) => RunCompletionModel::TerminalFailure(x@),
            RunCompletion::RetryableFailure(x) => RunCompletionModel::RetryableFailure(x@),
        }
    }
}

/// The field that a [`RunCompletion`] is written as, if one is chosen.
pub open spec fn run_completion_piece(r: Option<RunCompletionModel>) -> Seq<Field> {
    match r {
        Some(RunCompletionModel::Success(x)) => present_bytes(2, x),
        Some(RunCompletionModel::TerminalFailure(x)) => present_bytes(3, encoded::<Failure>(x)),
        Some(RunCompletionModel::RetryableFailure(x)) => present_bytes(4, encoded::<Failure>(x)),
        None => Seq::empty(),
    }
}

/// Report of how a run block ended.
#[derive(Clone, Debug, PartialEq, Eq)]
pub struct VmProposeRunCompletionParameters {
    /// The run block, as the engine named it. Field 1.
    pub handle: u32,
    /// The outcome; a report without one is refused.
    pub result: Option<RunCompletion>,
    /// How long the attempt took, in milliseconds. Field 5.
    pub attempt_duration_millis: u64,
    /// The retry policy; no retry where absent. Field 6.
    pub retry_policy: Option<RetryPolicyParameters>,
}

/// What a [`VmProposeRunCompletionParameters`] holds.
pub struct VmProposeRunCompletionParametersModel {
    pub handle: u32,
    pub result: Option<RunCompletionModel>,
    pub attempt_duration_millis: u64,
    pub retry_policy: Option<RetryPolicyParametersModel>,
}

impl View for VmProposeRunCompletionParameters {
    type V = VmProposeRunCompletionParametersModel;

    open spec fn view(&self) -> VmProposeRunCompletionParametersModel {
        VmProposeRunCompletionParametersModel {
            handle: self.handle,
            result: option_view(self.result),
            attempt_duration_millis: self.attempt_duration_millis,
            retry_policy: option_view(self.retry_policy),
        }
    }
}

impl Message for VmProposeRunCompletionParameters {
    open spec fn blank() -> VmProposeRunCompletionParametersModel {
        VmProposeRunCompletionParametersModel {
            handle: 0,
            result: None,
            attempt_duration_millis: 0,
            retry_policy: None,
        }
    }

    open spec fn step(
        m: VmProposeRunCompletionParametersModel,
        f: Field,
    ) -> Option<VmProposeRunCompletionParametersModel> {
        if f.number == 1 {
            match as_u32(f.value) {
                Some(x) => Some(
                    VmProposeRunCompletionParametersModel {
                        handle: x,
                        result: m.result,
                        attempt_duration_millis: m.attempt_duration_millis,
                        retry_policy: m.retry_policy,
                    },
                ),
                None => None,
            }
        } else if f.number == 2 {
            match as_bytes(f.value) {
                Some(x) => Some(
                    VmProposeRunCompletionParametersModel {
                        handle: m.handle,
                        result: Some(RunCompletionModel::Success(x)),
                        attempt_duration_millis: m.attempt_duration_millis,
                        retry_policy: m.retry_policy,
                    },
                ),
                None => None,
            }
        } else if f.number == 3 {
            let base = match m.result {
                Some(RunCompletionModel::TerminalFailure(b)) => b,
                _ => Failure::blank(),
            };
            match as_nested::<Failure>(base, f.value) {
                Some(x) => Some(
                    VmProposeRunCompletionParametersModel {
                        handle: m.handle,
                        result: Some(RunCompletionModel::TerminalFailure(x)),
                        attempt_duration_millis: m.attempt_duration_millis,
                        retry_policy: m.retry_policy,
                    },
                ),
                None => None,
            }
        } else if f.number == 4 {
            let base = match m.result {
                Some(RunCompletionModel::RetryableFailure(b)) => b,
                _ => Failure::blank(),
            };
            match as_nested::<Failure>(base, f.value) {
                Some(x) => Some(
                    VmProposeRunCompletionParametersModel {
                        handle: m.handle,
                        result: Some(RunCompletionModel::RetryableFailure(x)),
                        attempt_duration_millis: m.attempt_duration_millis,
                        retry_policy: m.retry_policy,
                    },
                ),
                None => None,
            }
        } else if f.number == 5 {
            match as_number(f.value) {
                Some(x) => Some(
                    VmProposeRunCompletionParametersModel {
                        handle: m.handle,
                        result: m.result,
                        attempt_duration_millis: x,
                        retry_policy: m.retry_policy,
                    },
                ),
                None => None,
            }
        } else if f.number == 6 {
            match as_nested::<RetryPolicyParameters>(
                or_blank::<RetryPolicyParameters>(m.retry_policy),
                f.value,
            ) {
                Some(x) => Some(
                    VmProposeRunCompletionParametersModel {
                        handle: m.handle,
                        result: m.result,
                        attempt_duration_millis: m.attempt_duration_millis,
                        retry_policy: Some(x),
                    },
                ),
                None => None,
            }
        } else {
            Some(m)
        }
    }

    open spec fn fields(m: VmProposeRunCompletionParametersModel) -> Seq<Field> {
        number_piece(1, m.handle as u64)
            + run_completion_piece(m.result)
            + number_piece(5, m.attempt_duration_millis)
            + optional_nested::<RetryPolicyParameters>(6, m.retry_policy)
    }

    open spec fn knows(number: u32) -> bool {
        number == 1 || number == 2 || number == 3 || number == 4 || number == 5 || number == 6
    }

    fn fresh() -> (r: VmProposeRunCompletionParameters) {
        VmProposeRunCompletionParameters {
            handle: 0,
            result: None,
            attempt_duration_millis: 0,
            retry_policy: None,
        }
    }

    fn absorb(self, f: &RawField) -> (r: Option<VmProposeRunCompletionParameters>) {
        let mut m = self;
        if f.number == 1 {
            match read_u32(&f.value) {
                Some(x) => {
                    m.handle = x;
                    Some(m)
                },
                None => None,
            }
        } else if f.number == 2 {
            match read_bytes(&f.value) {
                Some(x) => {
                    m.result = Some(RunCompletion::Success(x));
                    Some(m)
                },
                None => None,
            }
        } else if f.number == 3 {
            let base = match m.result.take() {
                Some(RunCompletion::TerminalFailure(b)) => b,
                _ => Failure::fresh(),
            };
            match read_nested(base, &f.value) {
                Some(x) => {
                    m.result = Some(RunCompletion::TerminalFailure(x));
                    Some(m)
                },
                None => None,
            }
        } else if f.number == 4 {
            let base = match m.result.take() {
                Some(RunCompletion::RetryableFailure(b)) => b,
                _ => Failure::fresh(),
            };
            match read_nested(base, &f.value) {
                Some(x) => {
                    m.result = Some(RunCompletion::RetryableFailure(x));
                    Some(m)
                },
                None => None,
            }
        } else if f.number == 5 {
            match read_number(&f.value) {
                Some(x) => {
                    m.attempt_duration_millis = x;
                    Some(m)
                },
                None => None,
            }
        } else if f.number == 6 {
            let base = match m.retry_policy.take() {
                Some(b) => b,
                None => RetryPolicyParameters::fresh(),
            };
            match read_nested(base, &f.value) {
                Some(x) => {
                    m.retry_policy = Some(x);
                    Some(m)
                },
                None => None,
            }
        } else {
            Some(m)
        }
    }

    fn to_fields(&self) -> (r: Vec<RawField>) {
        let mut fs: Vec<RawField> = Vec::new();
        proof {
            assert(models(fs@) =~= Seq::<Field>::empty());
        }
        push_number(&mut fs, 1, self.handle as u64);
        match &self.result {
            Some(RunCompletion::Success(x)) => {
                push_present_bytes(&mut fs, 2, x);
            },
            Some(RunCompletion::TerminalFailure(x)) => {
                push_nested(&mut fs, 3, x);
            },
            Some(RunCompletion::RetryableFailure(x)) => {
                push_nested(&mut fs, 4, x);
            },
            None => {
                proof {
                    assert(models(fs@) + Seq::<Field>::empty() =~= models(fs@));
                }
            },
        }
        push_number(&mut fs, 5, self.attempt_duration_millis);
        push_optional_nested(&mut fs, 6, &self.retry_policy);
        proof {
            assert(models(fs@) =~= Self::fields(self@));
        }
        fs
    }

    proof fn lemma_unknown(m: VmProposeRunCompletionParametersModel, f: Field) {
    }

    proof fn lemma_restore(m: VmProposeRunCompletionParametersModel) {
        let st = |x: VmProposeRunCompletionParametersModel, f: Field| Self::step(x, f);
        let b = Self::blank();
        let run0 = Seq::<Field>::empty();
        let part1 = number_piece(1, m.handle as u64);
        let run1 = run0 + part1;
        lemma_join(run0, part1);
        let part2 = run_completion_piece(m.result);
        let run2 = run1 + part2;
        lemma_join(run1, part2);
        let part3 = number_piece(5, m.attempt_duration_millis);
        let run3 = run2 + part3;
        lemma_join(run2, part3);
        let part4 = optional_nested::<RetryPolicyParameters>(6, m.retry_policy);
        let run4 = run3 + part4;
        lemma_join(run3, part4);
        assert(run1 =~= part1);
        lemma_fold_short(b, run0, st);
        lemma_number_pieces(1, m.handle as u64, m.handle);
        lemma_fold_then(b, run0, b, part1, st);
        let state1 = VmProposeRunCompletionParametersModel {
            handle: m.handle,
            result: b.result,
            attempt_duration_millis: b.attempt_duration_millis,
            retry_policy: b.retry_policy,
        };
        assert(fold(b, run1, st) == Some(state1));
        match m.result {
            Some(RunCompletionModel::Success(x)) => {
                lemma_present_pieces(2, Seq::empty(), x);
            },
            Some(RunCompletionModel::TerminalFailure(x)) => {
                lemma_present_pieces(3, Seq::empty(), encoded::<Failure>(x));
                lemma_round_trip::<Failure>(x);
            },
            Some(RunCompletionModel::RetryableFailure(x)) => {
                lemma_present_pieces(4, Seq::empty(), encoded::<Failure>(x));
                lemma_round_trip::<Failure>(x);
            },
            None => {},
        }
        lemma_fold_then(b, run1, state1, part2, st);
        let state2 = VmProposeRunCompletionParametersModel {
            handle: m.handle,
            result: m.result,
            attempt_duration_millis: b.attempt_duration_millis,
            retry_policy: b.retry_policy,
        };
        assert(fold(b, run2, st) == Some(state2));
        lemma_number_pieces(5, m.attempt_duration_millis, 0);
        lemma_fold_then(b, run2, state2, part3, st);
        let state3 = VmProposeRunCompletionParametersModel {
            handle: m.handle,
            result: m.result,
            attempt_duration_millis: m.attempt_duration_millis,
            retry_policy: b.retry_policy,
        };
        assert(fold(b, run3, st) == Some(state3));
        lemma_optional_nested::<RetryPolicyParameters>(6, m.retry_policy);
        if m.retry_policy is Some {
            lemma_round_trip::<RetryPolicyParameters>(m.retry_policy.unwrap());
        }
        lemma_fold_then(b, run3, state3, part4, st);
        assert(fold(b, run4, st) == Some(m));
    }
}

/// The output of an invocation.
#[derive(Clone, Debug, PartialEq, Eq)]
pub enum OutputResult {
    /// The invocation succeeded with this payload. Field 1.
    Success(Vec<u8>),
    /// The invocation failed for good. Field 2.
    Failure(Failure),
}

/// What a [`OutputResult`] holds.
pub enum OutputResultModel {
    Success(Seq<u8>),
    Failure(FailureModel),
}

impl View for OutputResult {
    type V = OutputResultModel;

    open spec fn view(&self) -> OutputResultModel {
        match self {
            OutputResult::Success(x) => OutputResultModel::Success(x@),
            OutputResult::Failure(x) => OutputResultModel::Failure(x@),
        }
    }
}

/// The field that a [`OutputResult`] is written as, if one is chosen.
pub open spec fn output_result_piece(r: Option<OutputResultModel>) -> Seq<Field> {
    match r {
        Some(OutputResultModel::Success(x)) => present_bytes(1, x),
        Some(OutputResultModel::Failure(x)) => present_bytes(2, encoded::<Failure>(x)),
        None => Seq::empty(),
    }
}

/// Request to write the output of the invocation.
#[derive(Clone, Debug, PartialEq, Eq)]
pub struct VmSysWriteOutputParameters {
    /// The output; a request without one is refused.
    pub result: Option<OutputResult>,
}

/// What a [`VmSysWriteOutputParameters`] holds.
pub struct VmSysWriteOutputParametersModel {
    pub result: Option<OutputResultModel>,
}

impl View for VmSysWriteOutputParameters {
    type V = VmSysWriteOutputParametersModel;

    open spec fn view(&self) -> VmSysWriteOutputParametersModel {
        VmSysWriteOutputParametersModel { result: option_view(self.result) }
    }
}

impl Message for VmSysWriteOutputParameters {
    open spec fn blank() -> VmSysWriteOutputParametersModel {
        VmSysWriteOutputParametersModel { result: None }
    }

    open spec fn step(
        m: VmSysWriteOutputParametersModel,
        f: Field,
    ) -> Option<VmSysWriteOutputParametersModel> {
        if f.number == 1 {
            match as_bytes(f.value) {
                Some(x) => Some(
                    VmSysWriteOutputParametersModel { result: Some(OutputResultModel::Success(x)) },
                ),
                None => None,
            }
        } else if f.number == 2 {
            let base = match m.result {
                Some(OutputResultModel::Failure(b)) => b,
                _ => Failure::blank(),
            };
            match as_nested::<Failure>(base, f.value) {
                Some(x) => Some(
                    VmSysWriteOutputParametersModel { result: Some(OutputResultModel::Failure(x)) },
                ),
                None => None,
            }
        } else {
            Some(m)
        }
    }

    open spec fn fields(m: VmSysWriteOutputParametersModel) -> Seq<Field> {
        output_result_piece(m.result)
    }

    open spec fn knows(number: u32) -> bool {
        number == 1 || number == 2
    }

    fn fresh() -> (r: VmSysWriteOutputParameters) {
        VmSysWriteOutputParameters { result: None }
    }

    fn absorb(self, f: &RawField) -> (r: Option<VmSysWriteOutputParameters>) {
        let mut m = self;
        if f.number == 1 {
            match read_bytes(&f.value) {
                Some(x) => {
                    m.result = Some(OutputResult::Success(x));
                    Some(m)
                },
                None => None,
            }
        } else if f.number == 2 {
            let base = match m.result.take() {
                Some(OutputResult::Failure(b)) => b,
                _ => Failure::fresh(),
            };
            match read_nested(base, &f.value) {
                Some(x) => {
                    m.result = Some(OutputResult::Failure(x));
                    Some(m)
                },
                None => None,
            }
        } else {
            Some(m)
        }
    }

    fn to_fields(&self) -> (r: Vec<RawField>) {
        let mut fs: Vec<RawField> = Vec::new();
        proof {
            assert(models(fs@) =~= Seq::<Field>::empty());
        }
        match &self.result {
            Some(OutputResult::Success(x)) => {
                push_present_bytes(&mut fs, 1, x);
            },
            Some(OutputResult::Failure(x)) => {
                push_nested(&mut fs, 2, x);
            },
            None => {
                proof {
                    assert(models(fs@) + Seq::<Field>::empty() =~= models(fs@));
                }
            },
        }
        proof {
            assert(models(fs@) =~= Self::fields(self@));
        }
        fs
    }

    proof fn lemma_unknown(m: VmSysWriteOutputParametersModel, f: Field) {
    }

    proof fn lemma_restore(m: VmSysWriteOutputParametersModel) {
        let st = |x: VmSysWriteOutputParametersModel, f: Field| Self::step(x, f);
        let b = Self::blank();
        let run0 = Seq::<Field>::empty();
        let part1 = output_result_piece(m.result);
        let run1 = run0 + part1;
        lemma_join(run0, part1);
        assert(run1 =~= part1);
        lemma_fold_short(b, run0, st);
        match m.result {
            Some(OutputResultModel::Success(x)) => {
                lemma_present_pieces(1, Seq::empty(), x);
            },
            Some(OutputResultModel::Failure(x)) => {
                lemma_present_pieces(2, Seq::empty(), encoded::<Failure>(x));
                lemma_round_trip::<Failure>(x);
            },
            None => {},
        }
        lemma_fold_then(b, run0, b, part1, st);
        assert(fold(b, run1, st) == Some(m));
    }
}
} // verus!
