//! The arguments of the `#[gateflow::isolated_net(...)]` test attribute:
//! which chaos parameters exist, how a list of `key = value` pairs is
//! accepted or rejected, and which `netem` builder calls the expansion
//! chains, in which order. The values are Rust expressions that the
//! attribute passes through untouched, so they are a type parameter here.

use vstd::prelude::*;
use crate::text::str_eq;

verus! {

/// One chaos parameter of the attribute.
#[derive(Debug, Clone, Copy, PartialEq, Eq, Structural)]
pub enum ChaosKey {
    /// `delay_ms`: added delay in milliseconds.
    DelayMs,
    /// `jitter_ms`: delay variation in milliseconds.
    JitterMs,
    /// `loss_percent`: packet loss.
    LossPercent,
    /// `reorder_percent`: packet reordering (the kernel needs a delay too).
    ReorderPercent,
    /// `corrupt_percent`: packet corruption.
    CorruptPercent,
    /// `duplicate_percent`: packet duplication.
    DuplicatePercent,
}

/// The key's spelling in the attribute.
pub open spec fn key_name(k: ChaosKey) -> Seq<char> {
    match k {
        ChaosKey::DelayMs => "delay_ms"@,
        ChaosKey::JitterMs => "jitter_ms"@,
        ChaosKey::LossPercent => "loss_percent"@,
        ChaosKey::ReorderPercent => "reorder_percent"@,
        ChaosKey::CorruptPercent => "corrupt_percent"@,
        ChaosKey::DuplicatePercent => "duplicate_percent"@,
    }
}

/// The key spelled `name`, if any.
pub open spec fn key_named(name: Seq<char>) -> Option<ChaosKey> {
    if name == "delay_ms"@ {
        Some(ChaosKey::DelayMs)
    } else if name == "jitter_ms"@ {
        Some(ChaosKey::JitterMs)
    } else if name == "loss_percent"@ {
        Some(ChaosKey::LossPercent)
    } else if name == "reorder_percent"@ {
        Some(ChaosKey::ReorderPercent)
    } else if name == "corrupt_percent"@ {
        Some(ChaosKey::CorruptPercent)
    } else if name == "duplicate_percent"@ {
        Some(ChaosKey::DuplicatePercent)
    } else {
        None
    }
}

/// The name of the `NetemConfig` builder method a key sets.
pub open spec fn key_method(k: ChaosKey) -> Seq<char> {
    match k {
        ChaosKey::DelayMs => "delay"@,
        ChaosKey::JitterMs => "jitter"@,
        ChaosKey::LossPercent => "loss"@,
        ChaosKey::ReorderPercent => "reorder"@,
        ChaosKey::CorruptPercent => "corrupt"@,
        ChaosKey::DuplicatePercent => "duplicate"@,
    }
}

impl ChaosKey {
    /// The key spelled `name`, or `None` for an unknown parameter.
    pub fn from_name(name: &str) -> (r: Option<ChaosKey>)
        ensures
            r == key_named(name@),
    {
        if str_eq(name, "delay_ms") {
            Some(ChaosKey::DelayMs)
        } else if str_eq(name, "jitter_ms") {
            Some(ChaosKey::JitterMs)
        } else if str_eq(name, "loss_percent") {
            Some(ChaosKey::LossPercent)
        } else if str_eq(name, "reorder_percent") {
            Some(ChaosKey::ReorderPercent)
        } else if str_eq(name, "corrupt_percent") {
            Some(ChaosKey::CorruptPercent)
        } else if str_eq(name, "duplicate_percent") {
            Some(ChaosKey::DuplicatePercent)
        } else {
            None
        }
    }

    /// The name of the `NetemConfig` builder method this key sets.
    pub fn method(&self) -> (r: &'static str)
        ensures
            r@ == key_method(*self),
    {
        match self {
            ChaosKey::DelayMs => "delay",
            ChaosKey::JitterMs => "jitter",
            ChaosKey::LossPercent => "loss",
            ChaosKey::ReorderPercent => "reorder",
            ChaosKey::CorruptPercent => "corrupt",
            ChaosKey::DuplicatePercent => "duplicate",
        }
    }

    /// Whether the value is a whole number of milliseconds (a duration)
    /// rather than a percentage.
    pub fn is_millis(&self) -> (r: bool)
        ensures
            r == (*self == ChaosKey::DelayMs || *self == ChaosKey::JitterMs),
    {
        match self {
            ChaosKey::DelayMs | ChaosKey::JitterMs => true,
            _ => false,
        }
    }
}

/// Law: each key is found again by its own spelling.
pub proof fn lemma_key_names_round_trip(k: ChaosKey)
    ensures
        key_named(key_name(k)) == Some(k),
{
    reveal_strlit("delay_ms");
    reveal_strlit("jitter_ms");
    reveal_strlit("loss_percent");
    reveal_strlit("reorder_percent");
    reveal_strlit("corrupt_percent");
    reveal_strlit("duplicate_percent");
    assert("delay_ms"@.len() != "jitter_ms"@.len());
    assert("delay_ms"@.len() != "loss_percent"@.len());
    assert("delay_ms"@.len() != "reorder_percent"@.len());
    assert("delay_ms"@.len() != "corrupt_percent"@.len());
    assert("delay_ms"@.len() != "duplicate_percent"@.len());
    assert("jitter_ms"@.len() != "loss_percent"@.len());
    assert("jitter_ms"@.len() != "reorder_percent"@.len());
    assert("jitter_ms"@.len() != "corrupt_percent"@.len());
    assert("jitter_ms"@.len() != "duplicate_percent"@.len());
    assert("loss_percent"@.len() != "reorder_percent"@.len());
    assert("loss_percent"@.len() != "corrupt_percent"@.len());
    assert("loss_percent"@.len() != "duplicate_percent"@.len());
    assert("reorder_percent"@[0] != "corrupt_percent"@[0]);
    assert("reorder_percent"@.len() != "duplicate_percent"@.len());
    assert("corrupt_percent"@.len() != "duplicate_percent"@.len());
}

/// Law: every parameter sets the `NetemConfig` builder method named like
/// it without its unit suffix — `delay_ms` and `jitter_ms` set `delay` and
/// `jitter` with milliseconds, the four `*_percent` keys set the method of
/// the same stem with a percentage — so no parameter sets another one's
/// property.
pub proof fn lemma_method_is_key_stem(k: ChaosKey)
    ensures
        (k == ChaosKey::DelayMs || k == ChaosKey::JitterMs) ==> key_name(k) == key_method(k) + "_ms"@,
        !(k == ChaosKey::DelayMs || k == ChaosKey::JitterMs) ==> key_name(k) == key_method(k) + "_percent"@,
{
    reveal_strlit("delay_ms");
    reveal_strlit("jitter_ms");
    reveal_strlit("loss_percent");
    reveal_strlit("reorder_percent");
    reveal_strlit("corrupt_percent");
    reveal_strlit("duplicate_percent");
    reveal_strlit("delay");
    reveal_strlit("jitter");
    reveal_strlit("loss");
    reveal_strlit("reorder");
    reveal_strlit("corrupt");
    reveal_strlit("duplicate");
    reveal_strlit("_ms");
    reveal_strlit("_percent");
    assert("delay_ms"@ =~= "delay"@ + "_ms"@);
    assert("jitter_ms"@ =~= "jitter"@ + "_ms"@);
    assert("loss_percent"@ =~= "loss"@ + "_percent"@);
    assert("reorder_percent"@ =~= "reorder"@ + "_percent"@);
    assert("corrupt_percent"@ =~= "corrupt"@ + "_percent"@);
    assert("duplicate_percent"@ =~= "duplicate"@ + "_percent"@);
}

/// Why an attribute argument list is rejected.
#[derive(Debug, Clone, Copy, PartialEq, Eq, Structural)]
pub enum ChaosArgError {
    /// A key that is not one of the six parameters.
    UnknownParameter,
    /// A parameter given twice.
    DuplicateParameter,
    /// Two `key = value` pairs not separated by `,`.
    MissingComma,
}

/// The compile error message of a rejected argument list.
pub open spec fn error_message(e: ChaosArgError) -> Seq<char> {
    match e {
        ChaosArgError::UnknownParameter => "unknown gateflow chaos parameter; expected one of: delay_ms, jitter_ms, loss_percent, reorder_percent, corrupt_percent, duplicate_percent"@,
        ChaosArgError::DuplicateParameter => "duplicate gateflow chaos parameter"@,
        ChaosArgError::MissingComma => "expected `,` between gateflow chaos parameters"@,
    }
}

impl ChaosArgError {
    /// The compile error message of this rejection.
    pub fn message(&self) -> (r: &'static str)
        ensures
            r@ == error_message(*self),
    {
        match self {
            ChaosArgError::UnknownParameter => "unknown gateflow chaos parameter; expected one of: delay_ms, jitter_ms, loss_percent, reorder_percent, corrupt_percent, duplicate_percent",
            ChaosArgError::DuplicateParameter => "duplicate gateflow chaos parameter",
            ChaosArgError::MissingComma => "expected `,` between gateflow chaos parameters",
        }
    }
}

/// What follows a `key = value` pair.
#[derive(Debug, Clone, Copy, PartialEq, Eq, Structural)]
pub enum Separator {
    /// A `,`: consume it and go on while input remains.
    Comma,
    /// The end of the arguments.
    End,
}

/// What may follow a `key = value` pair: a comma, or nothing at all.
pub fn after_pair(comma_next: bool, input_empty: bool) -> (r: Result<Separator, ChaosArgError>)
    ensures
        comma_next ==> r == Ok::<Separator, ChaosArgError>(Separator::Comma),
        !comma_next && input_empty ==> r == Ok::<Separator, ChaosArgError>(Separator::End),
        !comma_next && !input_empty ==> r == Err::<Separator, ChaosArgError>(ChaosArgError::MissingComma),
{
    if comma_next {
        Ok(Separator::Comma)
    } else if input_empty {
        Ok(Separator::End)
    } else {
        Err(ChaosArgError::MissingComma)
    }
}

/// The chaos parameters given to the attribute, each at most once.
#[derive(Debug)]
pub struct ChaosArgs<V> {
    /// `delay_ms`.
    pub delay_ms: Option<V>,
    /// `jitter_ms`.
    pub jitter_ms: Option<V>,
    /// `loss_percent`.
    pub loss_percent: Option<V>,
    /// `reorder_percent`.
    pub reorder_percent: Option<V>,
    /// `corrupt_percent`.
    pub corrupt_percent: Option<V>,
    /// `duplicate_percent`.
    pub duplicate_percent: Option<V>,
}

/// The value given for `k`, if any.
pub open spec fn slot<V>(a: ChaosArgs<V>, k: ChaosKey) -> Option<V> {
    match k {
        ChaosKey::DelayMs => a.delay_ms,
        ChaosKey::JitterMs => a.jitter_ms,
        ChaosKey::LossPercent => a.loss_percent,
        ChaosKey::ReorderPercent => a.reorder_percent,
        ChaosKey::CorruptPercent => a.corrupt_percent,
        ChaosKey::DuplicatePercent => a.duplicate_percent,
    }
}

/// `(k, v)` when `o` is `Some(v)`, nothing otherwise.
pub open spec fn call_if<V>(k: ChaosKey, o: Option<V>) -> Seq<(ChaosKey, V)> {
    match o {
        Some(v) => seq![(k, v)],
        None => Seq::empty(),
    }
}

/// The builder calls the expansion chains onto `NetemConfig::new()`, one
/// per given parameter, in the order delay, jitter, loss, reorder,
/// corrupt, duplicate.
pub open spec fn netem_calls<V>(a: ChaosArgs<V>) -> Seq<(ChaosKey, V)> {
    call_if(ChaosKey::DelayMs, a.delay_ms)
        + call_if(ChaosKey::JitterMs, a.jitter_ms)
        + call_if(ChaosKey::LossPercent, a.loss_percent)
        + call_if(ChaosKey::ReorderPercent, a.reorder_percent)
        + call_if(ChaosKey::CorruptPercent, a.corrupt_percent)
        + call_if(ChaosKey::DuplicatePercent, a.duplicate_percent)
}

/// Whether any chaos parameter was given.
pub open spec fn has_chaos<V>(a: ChaosArgs<V>) -> bool {
    ||| a.delay_ms is Some
    ||| a.jitter_ms is Some
    ||| a.loss_percent is Some
    ||| a.reorder_percent is Some
    ||| a.corrupt_percent is Some
    ||| a.duplicate_percent is Some
}

/// Law: the expansion applies chaos exactly when some parameter was given,
/// with one builder call per given parameter.
pub proof fn lemma_chaos_iff_calls<V>(a: ChaosArgs<V>)
    ensures
        has_chaos(a) <==> netem_calls(a).len() > 0,
        netem_calls(a).len() == (if a.delay_ms is Some { 1int } else { 0 }) + (if a.jitter_ms is Some { 1int } else { 0 })
            + (if a.loss_percent is Some { 1int } else { 0 }) + (if a.reorder_percent is Some { 1int } else { 0 })
            + (if a.corrupt_percent is Some { 1int } else { 0 }) + (if a.duplicate_percent is Some { 1int } else { 0 }),
{
}

/// One `NetemConfig` builder call of the expansion.
#[derive(Debug)]
pub struct NetemCall<V> {
    /// The parameter, which names the builder method.
    pub key: ChaosKey,
    /// The expression passed to it.
    pub value: V,
}

impl<V> ChaosArgs<V> {
    /// No parameters given.
    pub fn new() -> (r: Self)
        ensures
            forall|k: ChaosKey| slot(r, k) is None,
    {
        ChaosArgs {
            delay_ms: None,
            jitter_ms: None,
            loss_percent: None,
            reorder_percent: None,
            corrupt_percent: None,
            duplicate_percent: None,
        }
    }

    /// Gives parameter `key` the value `value`, unless it was already given.
    pub fn set(&mut self, key: ChaosKey, value: V) -> (r: Result<(), ChaosArgError>)
        ensures
            slot(*old(self), key) is Some ==> r == Err::<(), ChaosArgError>(ChaosArgError::DuplicateParameter)
                && *final(self) == *old(self),
            slot(*old(self), key) is None ==> r is Ok && slot(*final(self), key) == Some(value)
                && forall|k: ChaosKey| k != key ==> slot(*final(self), k) == slot(*old(self), k),
    {
        let taken = match key {
            ChaosKey::DelayMs => self.delay_ms.is_some(),
            ChaosKey::JitterMs => self.jitter_ms.is_some(),
            ChaosKey::LossPercent => self.loss_percent.is_some(),
            ChaosKey::ReorderPercent => self.reorder_percent.is_some(),
            ChaosKey::CorruptPercent => self.corrupt_percent.is_some(),
            ChaosKey::DuplicatePercent => self.duplicate_percent.is_some(),
        };
        if taken {
            return Err(ChaosArgError::DuplicateParameter);
        }
        match key {
            ChaosKey::DelayMs => self.delay_ms = Some(value),
            ChaosKey::JitterMs => self.jitter_ms = Some(value),
            ChaosKey::LossPercent => self.loss_percent = Some(value),
            ChaosKey::ReorderPercent => self.reorder_percent = Some(value),
            ChaosKey::CorruptPercent => self.corrupt_percent = Some(value),
            ChaosKey::DuplicatePercent => self.duplicate_percent = Some(value),
        }
        Ok(())
    }

    /// Accepts the pair `name = value`: an unknown name or a repeated
    /// parameter is rejected, leaving the arguments unchanged.
    pub fn accept(&mut self, name: &str, value: V) -> (r: Result<(), ChaosArgError>)
        ensures
            key_named(name@) is None ==> r == Err::<(), ChaosArgError>(ChaosArgError::UnknownParameter)
                && *final(self) == *old(self),
            key_named(name@) matches Some(key) ==> {
                &&& slot(*old(self), key) is Some ==> r == Err::<(), ChaosArgError>(ChaosArgError::DuplicateParameter)
                    && *final(self) == *old(self)
                &&& slot(*old(self), key) is None ==> r is Ok && slot(*final(self), key) == Some(value)
                    && forall|k: ChaosKey| k != key ==> slot(*final(self), k) == slot(*old(self), k)
            },
    {
        match ChaosKey::from_name(name) {
            None => Err(ChaosArgError::UnknownParameter),
            Some(key) => self.set(key, value),
        }
    }

    /// The builder calls of the expansion, in order.
    pub fn into_netem_calls(self) -> (r: Vec<NetemCall<V>>)
        ensures
            r@.map_values(|c: NetemCall<V>| (c.key, c.value)) == netem_calls(self),
    {
        let ghost a = self;
        let mut calls: Vec<NetemCall<V>> = Vec::new();
        if let Some(v) = self.delay_ms {
            calls.push(NetemCall { key: ChaosKey::DelayMs, value: v });
        }
        if let Some(v) = self.jitter_ms {
            calls.push(NetemCall { key: ChaosKey::JitterMs, value: v });
        }
        if let Some(v) = self.loss_percent {
            calls.push(NetemCall { key: ChaosKey::LossPercent, value: v });
        }
        if let Some(v) = self.reorder_percent {
            calls.push(NetemCall { key: ChaosKey::ReorderPercent, value: v });
        }
        if let Some(v) = self.corrupt_percent {
            calls.push(NetemCall { key: ChaosKey::CorruptPercent, value: v });
        }
        if let Some(v) = self.duplicate_percent {
            calls.push(NetemCall { key: ChaosKey::DuplicatePercent, value: v });
        }
        assert(calls@.map_values(|c: NetemCall<V>| (c.key, c.value)) =~= netem_calls(a));
        calls
    }
}

} // verus!
