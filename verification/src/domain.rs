//! The values that pass between the messages of the boundary and the
//! engine, and how requests become them.
//!
//! A request that must carry an outcome and carries none is refused, and so
//! is a failure for good whose code does not fit in 16 bits: the engine has
//! no place for either.
use vstd::prelude::*;
use crate::common::{Failure, FailureModel, Header, HeaderModel};
use crate::fault::Fault;
use crate::pieces::{option_view, views};
use crate::requests::{
    AwakeableCompletion, AwakeableCompletionModel, OutputResult, OutputResultModel,
    PromiseCompletion, PromiseCompletionModel, RetryPolicyParameters, RetryPolicyParametersModel,
    RunCompletion, RunCompletionModel, VmSysCallParameters, VmSysCallParametersModel,
    VmSysSendParameters, VmSysSendParametersModel,
};

verus! {

/// A failure for good: a code of 16 bits and a message.
#[derive(Clone, Debug, PartialEq, Eq)]
pub struct TerminalFailure {
    pub code: u16,
    pub message: String,
}

/// What a [`TerminalFailure`] holds.
pub struct TerminalFailureModel {
    pub code: u16,
    pub message: Seq<char>,
}

impl View for TerminalFailure {
    type V = TerminalFailureModel;

    open spec fn view(&self) -> TerminalFailureModel {
        TerminalFailureModel { code: self.code, message: self.message@ }
    }
}

/// The failure for good that a failure message stands for; refused where
/// the code does not fit in 16 bits.
pub open spec fn terminal_of(f: FailureModel) -> Result<TerminalFailureModel, Fault> {
    if f.code <= u16::MAX {
        Ok(TerminalFailureModel { code: f.code as u16, message: f.message })
    } else {
        Err(Fault::CodeOutOfRange)
    }
}

/// Makes a failure for good of a failure message.
pub fn terminal_failure(f: Failure) -> (r: Result<TerminalFailure, Fault>)
    ensures
        match terminal_of(f@) {
            Ok(t) => r is Ok && r.unwrap()@ == t,
            Err(fault) => r == Err::<TerminalFailure, Fault>(fault),
        },
{
    if f.code <= 0xFFFF {
        Ok(TerminalFailure { code: f.code as u16, message: f.message })
    } else {
        Err(Fault::CodeOutOfRange)
    }
}

/// The failure message that a failure for good is reported as.
pub open spec fn failure_of_terminal(t: TerminalFailureModel) -> FailureModel {
    FailureModel { code: t.code as u32, message: t.message }
}

/// Makes a failure message of a failure for good.
pub fn terminal_failure_message(t: TerminalFailure) -> (r: Failure)
    ensures
        r@ == failure_of_terminal(t@),
{
    Failure { code: t.code as u32, message: t.message }
}

/// Makes a failure message of the code and the text of an engine error.
pub fn failure_from(code: u16, message: String) -> (r: Failure)
    ensures
        r@ == (FailureModel { code: code as u32, message: message@ }),
{
    Failure { code: code as u32, message }
}

/// A definite outcome: success with a payload, or a failure for good.
/// There is no void here: a call that takes a definite outcome cannot be
/// given none.
#[derive(Clone, Debug, PartialEq, Eq)]
pub enum DefiniteValue {
    Success(Vec<u8>),
    Failure(TerminalFailure),
}

/// What a [`DefiniteValue`] holds.
pub enum DefiniteValueModel {
    Success(Seq<u8>),
    Failure(TerminalFailureModel),
}

impl View for DefiniteValue {
    type V = DefiniteValueModel;

    open spec fn view(&self) -> DefiniteValueModel {
        match self {
            DefiniteValue::Success(b) => DefiniteValueModel::Success(b@),
            DefiniteValue::Failure(t) => DefiniteValueModel::Failure(t@),
        }
    }
}

/// The definite outcome of a success payload or a failure message.
pub open spec fn definite(success: Option<Seq<u8>>, failure: Option<FailureModel>) -> Result<
    DefiniteValueModel,
    Fault,
> {
    match (success, failure) {
        (Some(b), _) => Ok(DefiniteValueModel::Success(b)),
        (None, Some(f)) => match terminal_of(f) {
            Ok(t) => Ok(DefiniteValueModel::Failure(t)),
            Err(fault) => Err(fault),
        },
        (None, None) => Err(Fault::MissingResult),
    }
}

/// The outcome that completes an awakeable.
pub open spec fn awakeable_outcome(c: Option<AwakeableCompletionModel>) -> Result<
    DefiniteValueModel,
    Fault,
> {
    match c {
        Some(AwakeableCompletionModel::Success(b)) => definite(Some(b), None),
        Some(AwakeableCompletionModel::Failure(f)) => definite(None, Some(f)),
        None => definite(None, None),
    }
}

/// The outcome that completes an awakeable, from the request.
pub fn awakeable_value(c: Option<AwakeableCompletion>) -> (r: Result<DefiniteValue, Fault>)
    ensures
        match awakeable_outcome(option_view(c)) {
            Ok(v) => r is Ok && r.unwrap()@ == v,
            Err(fault) => r == Err::<DefiniteValue, Fault>(fault),
        },
{
    match c {
        Some(AwakeableCompletion::Success(b)) => Ok(DefiniteValue::Success(b)),
        Some(AwakeableCompletion::Failure(f)) => match terminal_failure(f) {
            Ok(t) => Ok(DefiniteValue::Failure(t)),
            Err(fault) => Err(fault),
        },
        None => Err(Fault::MissingResult),
    }
}

/// The outcome that completes a promise.
pub open spec fn promise_outcome(c: Option<PromiseCompletionModel>) -> Result<
    DefiniteValueModel,
    Fault,
> {
    match c {
        Some(PromiseCompletionModel::Success(b)) => definite(Some(b), None),
        Some(PromiseCompletionModel::Failure(f)) => definite(None, Some(f)),
        None => definite(None, None),
    }
}

/// The outcome that completes a promise, from the request.
pub fn promise_value(c: Option<PromiseCompletion>) -> (r: Result<DefiniteValue, Fault>)
    ensures
        match promise_outcome(option_view(c)) {
            Ok(v) => r is Ok && r.unwrap()@ == v,
            Err(fault) => r == Err::<DefiniteValue, Fault>(fault),
        },
{
    match c {
        Some(PromiseCompletion::Success(b)) => Ok(DefiniteValue::Success(b)),
        Some(PromiseCompletion::Failure(f)) => match terminal_failure(f) {
            Ok(t) => Ok(DefiniteValue::Failure(t)),
            Err(fault) => Err(fault),
        },
        None => Err(Fault::MissingResult),
    }
}

/// The outcome that an invocation ends with.
pub open spec fn output_outcome(c: Option<OutputResultModel>) -> Result<
    DefiniteValueModel,
    Fault,
> {
    match c {
        Some(OutputResultModel::Success(b)) => definite(Some(b), None),
        Some(OutputResultModel::Failure(f)) => definite(None, Some(f)),
        None => definite(None, None),
    }
}

/// The outcome that an invocation ends with, from the request.
pub fn output_value(c: Option<OutputResult>) -> (r: Result<DefiniteValue, Fault>)
    ensures
        match output_outcome(option_view(c)) {
            Ok(v) => r is Ok && r.unwrap()@ == v,
            Err(fault) => r == Err::<DefiniteValue, Fault>(fault),
        },
{
    match c {
        Some(OutputResult::Success(b)) => Ok(DefiniteValue::Success(b)),
        Some(OutputResult::Failure(f)) => match terminal_failure(f) {
            Ok(t) => Ok(DefiniteValue::Failure(t)),
            Err(fault) => Err(fault),
        },
        None => Err(Fault::MissingResult),
    }
}

/// The value of a completed notification.
#[derive(Clone, Debug, PartialEq, Eq)]
pub enum NotificationValue {
    /// Success without a payload.
    Void,
    /// Success with a payload.
    Success(Vec<u8>),
    /// A failure for good.
    Failure(TerminalFailure),
    /// The keys of the state entries.
    StateKeys(Vec<String>),
    /// The identifier of an invocation.
    InvocationId(String),
}

/// What a [`NotificationValue`] holds.
pub enum NotificationValueModel {
    Void,
    Success(Seq<u8>),
    Failure(TerminalFailureModel),
    StateKeys(Seq<Seq<char>>),
    InvocationId(Seq<char>),
}

impl View for NotificationValue {
    type V = NotificationValueModel;

    open spec fn view(&self) -> NotificationValueModel {
        match self {
            NotificationValue::Void => NotificationValueModel::Void,
            NotificationValue::Success(b) => NotificationValueModel::Success(b@),
            NotificationValue::Failure(t) => NotificationValueModel::Failure(t@),
            NotificationValue::StateKeys(k) => NotificationValueModel::StateKeys(views(k@)),
            NotificationValue::InvocationId(s) => NotificationValueModel::InvocationId(s@),
        }
    }
}

/// Where an invocation goes: a service and a handler, and for a keyed
/// service the key; besides, the key that makes a repeated invocation the
/// same one, and headers to pass along.
#[derive(Clone, Debug, PartialEq, Eq)]
pub struct CallTarget {
    pub service: String,
    pub handler: String,
    pub key: Option<String>,
    pub idempotency_key: Option<String>,
    pub headers: Vec<Header>,
}

/// What a [`CallTarget`] holds.
pub struct CallTargetModel {
    pub service: Seq<char>,
    pub handler: Seq<char>,
    pub key: Option<Seq<char>>,
    pub idempotency_key: Option<Seq<char>>,
    pub headers: Seq<HeaderModel>,
}

impl View for CallTarget {
    type V = CallTargetModel;

    open spec fn view(&self) -> CallTargetModel {
        CallTargetModel {
            service: self.service@,
            handler: self.handler@,
            key: option_view(self.key),
            idempotency_key: option_view(self.idempotency_key),
            headers: views(self.headers@),
        }
    }
}

/// The target and the input of a call.
pub open spec fn call_arguments(p: VmSysCallParametersModel) -> (CallTargetModel, Seq<u8>) {
    (
        CallTargetModel {
            service: p.service,
            handler: p.handler,
            key: p.key,
            idempotency_key: p.idempotency_key,
            headers: p.headers,
        },
        p.input,
    )
}

/// The target and the input of a call, from the request.
pub fn call_target(p: VmSysCallParameters) -> (r: (CallTarget, Vec<u8>))
    ensures
        (r.0@, r.1@) == call_arguments(p@),
{
    (
        CallTarget {
            service: p.service,
            handler: p.handler,
            key: p.key,
            idempotency_key: p.idempotency_key,
            headers: p.headers,
        },
        p.input,
    )
}

/// The target, the input and the time of a call that nobody waits for.
pub open spec fn send_arguments(p: VmSysSendParametersModel) -> (
    CallTargetModel,
    Seq<u8>,
    Option<u64>,
) {
    (
        CallTargetModel {
            service: p.service,
            handler: p.handler,
            key: p.key,
            idempotency_key: p.idempotency_key,
            headers: p.headers,
        },
        p.input,
        p.execution_time_since_unix_epoch_millis,
    )
}

/// The target, the input and the time of a call that nobody waits for, from
/// the request.
pub fn send_target(p: VmSysSendParameters) -> (r: (CallTarget, Vec<u8>, Option<u64>))
    ensures
        (r.0@, r.1@, r.2) == send_arguments(p@),
{
    (
        CallTarget {
            service: p.service,
            handler: p.handler,
            key: p.key,
            idempotency_key: p.idempotency_key,
            headers: p.headers,
        },
        p.input,
        p.execution_time_since_unix_epoch_millis,
    )
}

/// The present time to hand to the engine with a sleep. The engine uses it
/// for a diagnostic line only, and there it subtracts it from the time to
/// wake up: so it is handed over only where it is not later than that.
pub open spec fn sleep_now(wake_up_millis: u64, now_millis: u64) -> Option<u64> {
    if now_millis <= wake_up_millis {
        Some(now_millis)
    } else {
        None
    }
}

/// The present time to hand to the engine with a sleep.
pub fn present_time(wake_up_millis: u64, now_millis: u64) -> (r: Option<u64>)
    ensures
        r == sleep_now(wake_up_millis, now_millis),
{
    if now_millis <= wake_up_millis {
        Some(now_millis)
    } else {
        None
    }
}

/// How a run block ended.
#[derive(Clone, Debug, PartialEq, Eq)]
pub enum RunOutcome {
    /// With a payload.
    Success(Vec<u8>),
    /// With a failure for good.
    TerminalFailure(TerminalFailure),
    /// With a failure that may be tried again, after an attempt of the
    /// given duration.
    RetryableFailure { attempt_duration_millis: u64, code: u16, message: String },
}

/// What a [`RunOutcome`] holds.
pub enum RunOutcomeModel {
    Success(Seq<u8>),
    TerminalFailure(TerminalFailureModel),
    RetryableFailure { attempt_duration_millis: u64, code: u16, message: Seq<char> },
}

impl View for RunOutcome {
    type V = RunOutcomeModel;

    open spec fn view(&self) -> RunOutcomeModel {
        match self {
            RunOutcome::Success(b) => RunOutcomeModel::Success(b@),
            RunOutcome::TerminalFailure(t) => RunOutcomeModel::TerminalFailure(t@),
            RunOutcome::RetryableFailure { attempt_duration_millis, code, message } =>
                RunOutcomeModel::RetryableFailure {
                    attempt_duration_millis: *attempt_duration_millis,
                    code: *code,
                    message: message@,
                },
        }
    }
}

/// The low 16 bits of a code.
pub open spec fn low16(code: u32) -> u16 {
    (code % 0x1_0000) as u16
}

/// How a run block ended, as the report says. The code of a failure for
/// good must fit in 16 bits; of the code of a failure that may be tried
/// again the low 16 bits are kept.
pub open spec fn run_exit(c: Option<RunCompletionModel>, attempt_duration_millis: u64) -> Result<
    RunOutcomeModel,
    Fault,
> {
    match c {
        Some(RunCompletionModel::Success(b)) => Ok(RunOutcomeModel::Success(b)),
        Some(RunCompletionModel::TerminalFailure(f)) => match terminal_of(f) {
            Ok(t) => Ok(RunOutcomeModel::TerminalFailure(t)),
            Err(fault) => Err(fault),
        },
        Some(RunCompletionModel::RetryableFailure(f)) => Ok(
            RunOutcomeModel::RetryableFailure {
                attempt_duration_millis,
                code: low16(f.code),
                message: f.message,
            },
        ),
        None => Err(Fault::MissingResult),
    }
}

/// How a run block ended, from the report.
pub fn run_exit_result(c: Option<RunCompletion>, attempt_duration_millis: u64) -> (r: Result<
    RunOutcome,
    Fault,
>)
    ensures
        match run_exit(option_view(c), attempt_duration_millis) {
            Ok(v) => r is Ok && r.unwrap()@ == v,
            Err(fault) => r == Err::<RunOutcome, Fault>(fault),
        },
{
    match c {
        Some(RunCompletion::Success(b)) => Ok(RunOutcome::Success(b)),
        Some(RunCompletion::TerminalFailure(f)) => match terminal_failure(f) {
            Ok(t) => Ok(RunOutcome::TerminalFailure(t)),
            Err(fault) => Err(fault),
        },
        Some(RunCompletion::RetryableFailure(f)) => Ok(
            RunOutcome::RetryableFailure {
                attempt_duration_millis,
                code: (f.code % 0x1_0000) as u16,
                message: f.message,
            },
        ),
        None => Err(Fault::MissingResult),
    }
}

/// Whether a run block that failed is tried again, and when.
#[derive(Clone, Copy, Debug, PartialEq, Eq, Structural)]
pub enum RetryRule {
    /// It is not tried again.
    Never,
    /// It is tried again after intervals that grow by a factor. The factor
    /// is held as the bits of a single-precision number.
    Exponential {
        initial_interval_millis: u64,
        factor_bits: u32,
        max_interval_millis: Option<u64>,
        max_attempts: Option<u32>,
        max_duration_millis: Option<u64>,
    },
}

/// The retry policy that a report asks for: none where it names none.
pub open spec fn policy_of(p: Option<RetryPolicyParametersModel>) -> RetryRule {
    match p {
        None => RetryRule::Never,
        Some(x) => RetryRule::Exponential {
            initial_interval_millis: x.initial_interval_millis,
            factor_bits: x.factor,
            max_interval_millis: x.max_interval_millis,
            max_attempts: x.max_attempts,
            max_duration_millis: x.max_duration_millis,
        },
    }
}

/// The retry policy that a report asks for.
pub fn retry_policy(p: &Option<RetryPolicyParameters>) -> (r: RetryRule)
    ensures
        r == policy_of(option_view(*p)),
{
    match p {
        None => RetryRule::Never,
        Some(x) => RetryRule::Exponential {
            initial_interval_millis: x.initial_interval_millis,
            factor_bits: x.factor,
            max_interval_millis: x.max_interval_millis,
            max_attempts: x.max_attempts,
            max_duration_millis: x.max_duration_millis,
        },
    }
}

/// The bits of positive infinity as a single-precision number. The bits of
/// every finite number that is not negative are below these.
pub const INFINITY_BITS: u32 = 0x7F80_0000;

/// Whether the engine can evaluate a policy: the factor of an exponential
/// policy must be a finite number that is not negative. Positive zero
/// counts; negative zero, the infinities and what is not a number do not.
pub open spec fn policy_is_sound(policy: RetryRule) -> bool {
    match policy {
        RetryRule::Never => true,
        RetryRule::Exponential { factor_bits, .. } => factor_bits < INFINITY_BITS,
    }
}

/// Whether the engine can evaluate a policy.
pub fn check_policy(policy: &RetryRule) -> (r: bool)
    ensures
        r == policy_is_sound(*policy),
{
    match policy {
        RetryRule::Never => true,
        RetryRule::Exponential { factor_bits, .. } => *factor_bits < INFINITY_BITS,
    }
}

/// The bits of the number one as a single-precision number. Among the
/// numbers that are not negative, the order of the bits is the order of the
/// numbers: the bits of a factor below one are below these, and the bits of
/// a factor above one are above.
pub const ONE_BITS: u32 = 0x3F80_0000;

/// Two to the 23rd: the bits of a single-precision number below this place
/// are its fraction, the bits above are its exponent, raised by 127.
pub const FRACTION_SPAN: u32 = 0x80_0000;

/// The room that the engine is left with: it multiplies the initial
/// interval, in seconds, by a power of the factor, and the product is kept
/// below two to this power, divided by a thousand. That is below two to
/// the 61st, where a duration holds seconds up to two to the 64th.
pub const PRODUCT_BITS: u32 = 70;

/// The most attempts ever handed to the engine with a factor below one:
/// two to the 31st. The engine takes the count of attempts, less one, as a
/// signed number of 32 bits for the power.
pub const MOST_ATTEMPTS: u32 = 0x8000_0000;

/// How many bits it takes to write `n`: the least `b` with `n` below two
/// to the power `b`.
pub open spec fn bit_length(n: u64) -> nat
    decreases n,
{
    if n == 0 {
        0
    } else {
        1 + bit_length(n / 2)
    }
}

/// Two to the power `k`.
pub open spec fn two_to(k: nat) -> nat
    decreases k,
{
    if k == 0 {
        1
    } else {
        2 * two_to((k - 1) as nat)
    }
}

/// A number is below two to its bit length, and not below two to one less.
pub proof fn lemma_bit_length(n: u64)
    ensures
        n < two_to(bit_length(n)),
        n != 0 ==> two_to((bit_length(n) - 1) as nat) <= n,
    decreases n,
{
    if n != 0 {
        lemma_bit_length(n / 2);
        reveal_with_fuel(two_to, 2);
    }
}

/// A number below two to the power `k` has a bit length of at most `k`.
pub proof fn lemma_bit_length_at_most(n: u64, k: nat)
    requires
        n < two_to(k),
    ensures
        bit_length(n) <= k,
    decreases k,
{
    if n != 0 {
        reveal_with_fuel(two_to, 2);
        lemma_bit_length_at_most(n / 2, (k - 1) as nat);
    }
}

/// The bit length of a number of 64 bits is at most 64.
pub proof fn lemma_bit_length_of_u64(n: u64)
    ensures
        bit_length(n) <= 64,
{
    reveal_with_fuel(two_to, 65);
    lemma_bit_length_at_most(n, 64);
}

/// How many bits it takes to write `n`.
pub fn bit_count(n: u64) -> (r: u32)
    ensures
        r == bit_length(n),
        r <= 64,
{
    let mut rest: u64 = n;
    let mut count: u32 = 0;
    proof {
        lemma_bit_length_of_u64(n);
    }
    while rest != 0
        invariant
            count + bit_length(rest) == bit_length(n),
            bit_length(n) <= 64,
        decreases rest,
    {
        rest = rest / 2;
        count = count + 1;
    }
    count
}

/// A power of two that a factor above one does not exceed: the factor is
/// at most two to this power. For a power of two itself that is its
/// exponent, for every other factor the exponent and one.
pub open spec fn growth_bits(factor_bits: u32) -> nat
    recommends
        ONE_BITS < factor_bits < INFINITY_BITS,
{
    if factor_bits % FRACTION_SPAN == 0 {
        (factor_bits / FRACTION_SPAN - 127) as nat
    } else {
        (factor_bits / FRACTION_SPAN - 126) as nat
    }
}

/// The most attempts with which the engine can be trusted, given the
/// initial interval and the factor of a policy; nothing where any number
/// will do.
///
/// For the attempt of count `k` the engine multiplies the initial interval
/// by the factor to the power `k - 1`, and it does so for every count below
/// the most attempts that the policy allows. A factor of exactly one leaves
/// the interval as it is, whatever the power. With a factor below one the
/// product never exceeds the interval, as long as the power is not
/// negative. With a factor above one, at most two to the power `c`, and an
/// interval below two to the power `b` milliseconds, the product stays in
/// range while `c` times the power is at most [`PRODUCT_BITS`] less `b`.
pub open spec fn safe_attempts(initial_interval_millis: u64, factor_bits: u32) -> Option<u32> {
    if factor_bits == ONE_BITS {
        None
    } else if factor_bits < ONE_BITS {
        Some(MOST_ATTEMPTS)
    } else {
        Some(
            (2 + (PRODUCT_BITS - bit_length(initial_interval_millis)) / (growth_bits(
                factor_bits,
            ) as int)) as u32,
        )
    }
}

/// The most attempts with which the engine can be trusted.
pub fn attempts_limit(initial_interval_millis: u64, factor_bits: u32) -> (r: Option<u32>)
    requires
        factor_bits < INFINITY_BITS,
    ensures
        r == safe_attempts(initial_interval_millis, factor_bits),
        r is Some ==> 2 <= r.unwrap() <= MOST_ATTEMPTS,
{
    if factor_bits == ONE_BITS {
        None
    } else if factor_bits < ONE_BITS {
        Some(MOST_ATTEMPTS)
    } else {
        let exponent: u32 = factor_bits / FRACTION_SPAN;
        let growth: u32 = if factor_bits % FRACTION_SPAN == 0 {
            exponent - 127
        } else {
            exponent - 126
        };
        let room: u32 = PRODUCT_BITS - bit_count(initial_interval_millis);
        Some(2 + room / growth)
    }
}

/// The most attempts that are handed to the engine for a policy: what the
/// policy allows, but no more than the engine can be trusted with.
pub open spec fn attempts_handed(
    initial_interval_millis: u64,
    factor_bits: u32,
    max_attempts: Option<u32>,
) -> Option<u32> {
    match safe_attempts(initial_interval_millis, factor_bits) {
        None => max_attempts,
        Some(limit) => match max_attempts {
            Some(m) => if m <= limit {
                Some(m)
            } else {
                Some(limit)
            },
            None => Some(limit),
        },
    }
}

/// The policy as it is handed to the engine: the same, but for the most
/// attempts of a sound exponential policy, which are capped.
///
/// Up to the cap the engine retries as the policy says. At the cap it
/// ends the retries with the failure for good, where a few attempts later
/// it would have ended the process. With a factor of two and an initial
/// interval of a tenth of a second the cap is 65 attempts.
pub open spec fn capped(policy: RetryRule) -> RetryRule {
    match policy {
        RetryRule::Never => RetryRule::Never,
        RetryRule::Exponential {
            initial_interval_millis,
            factor_bits,
            max_interval_millis,
            max_attempts,
            max_duration_millis,
        } => if factor_bits < INFINITY_BITS {
            RetryRule::Exponential {
                initial_interval_millis,
                factor_bits,
                max_interval_millis,
                max_attempts: attempts_handed(initial_interval_millis, factor_bits, max_attempts),
                max_duration_millis,
            }
        } else {
            policy
        },
    }
}

/// The policy as it is handed to the engine.
pub fn cap_attempts(policy: RetryRule) -> (r: RetryRule)
    ensures
        r == capped(policy),
{
    match policy {
        RetryRule::Never => RetryRule::Never,
        RetryRule::Exponential {
            initial_interval_millis,
            factor_bits,
            max_interval_millis,
            max_attempts,
            max_duration_millis,
        } => {
            if factor_bits >= INFINITY_BITS {
                return policy;
            }
            let handed = match attempts_limit(initial_interval_millis, factor_bits) {
                None => max_attempts,
                Some(limit) => match max_attempts {
                    Some(m) => if m <= limit {
                        Some(m)
                    } else {
                        Some(limit)
                    },
                    None => Some(limit),
                },
            };
            RetryRule::Exponential {
                initial_interval_millis,
                factor_bits,
                max_interval_millis,
                max_attempts: handed,
                max_duration_millis,
            }
        },
    }
}

/// Whether the engine can be trusted with an exponential policy: the
/// factor is a finite number that is not negative, and the most attempts
/// are no more than [`safe_attempts`] allows.
pub open spec fn exponential_is_safe(
    initial_interval_millis: u64,
    factor_bits: u32,
    max_attempts: Option<u32>,
) -> bool {
    &&& factor_bits < INFINITY_BITS
    &&& match safe_attempts(initial_interval_millis, factor_bits) {
        None => true,
        Some(limit) => max_attempts is Some && max_attempts.unwrap() <= limit,
    }
}

/// Whether the engine can be trusted with a policy.
pub open spec fn policy_is_safe(policy: RetryRule) -> bool {
    match policy {
        RetryRule::Never => true,
        RetryRule::Exponential { initial_interval_millis, factor_bits, max_attempts, .. } =>
            exponential_is_safe(initial_interval_millis, factor_bits, max_attempts),
    }
}

/// A sound policy is safe once it is capped. A safe policy is capped
/// already: capping changes nothing of it, and capping twice is capping
/// once.
pub proof fn lemma_capped_is_safe(policy: RetryRule)
    ensures
        policy_is_sound(policy) ==> policy_is_safe(capped(policy)),
        policy_is_safe(policy) ==> capped(policy) == policy,
        capped(capped(policy)) == capped(policy),
{
}

/// The policy that the engine gets with the report of how a run block
/// ended. It reads the policy only where the run block failed and may be
/// tried again: then it gets the given one with its most attempts capped,
/// and there is none to hand where that one is not sound. For every other
/// ending it gets the policy of no retry.
pub open spec fn policy_handed(result: RunOutcomeModel, policy: RetryRule) -> Option<RetryRule> {
    if result is RetryableFailure {
        if policy_is_sound(policy) {
            Some(capped(policy))
        } else {
            None
        }
    } else {
        Some(RetryRule::Never)
    }
}

/// The policy to hand to the engine with a report, if there is one. It is
/// always safe.
pub fn hand_policy(result: &RunOutcome, policy: RetryRule) -> (r: Option<RetryRule>)
    ensures
        r == policy_handed(result@, policy),
        r is Some ==> policy_is_safe(r.unwrap()),
{
    match result {
        RunOutcome::RetryableFailure { .. } => {
            if check_policy(&policy) {
                proof {
                    lemma_capped_is_safe(policy);
                }
                Some(cap_attempts(policy))
            } else {
                None
            }
        },
        _ => Some(RetryRule::Never),
    }
}

/// What one step of the engine came to, short of stopping.
#[derive(Clone, Copy, Debug, PartialEq, Eq, Structural)]
pub enum Progress {
    /// One of the awaited notifications has a value.
    AnyCompleted,
    /// The engine needs more input.
    ReadFromInput,
    /// The caller must execute this run block.
    ExecuteRun(u32),
    /// A run block that was handed out has not reported yet.
    WaitingPendingRun,
    /// The invocation was asked to cancel.
    CancelSignalReceived,
}

/// Why the engine stopped.
#[derive(Clone, Debug, PartialEq, Eq)]
pub enum Halt {
    /// No progress is possible here: the invocation must be suspended and
    /// taken up again later. This is no failure.
    Suspended,
    /// The engine failed.
    Failed(Failure),
}

/// What a [`Halt`] holds.
pub enum HaltModel {
    Suspended,
    Failed(FailureModel),
}

impl View for Halt {
    type V = HaltModel;

    open spec fn view(&self) -> HaltModel {
        match self {
            Halt::Suspended => HaltModel::Suspended,
            Halt::Failed(f) => HaltModel::Failed(f@),
        }
    }
}

} // verus!
