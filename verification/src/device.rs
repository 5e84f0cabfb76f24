//! Naming the processor to compute on: `cpu`, or `cuda` with an optional
//! ordinal after a colon.

use crate::error::{is_invalid_input, labelled, Error};
use crate::text::{has_prefix, same_text, starts_with};
use candle_core::Device;
use vstd::prelude::*;
use vstd::string::*;

verus! {

/// The ordinal of the accelerator that a device stands for; `None` for the
/// host processor.
pub uninterp spec fn device_ordinal(device: Device) -> Option<usize>;

/// `Device::Cpu`: the host processor.
#[verifier::external_body]
fn host_device() -> (device: Device)
    ensures
        device_ordinal(device) is None,
{
    Device::Cpu
}

/// `Device::new_cuda`: the accelerator with this ordinal. Whether there is
/// one depends on the machine, so nothing is assumed of when it succeeds. A
/// failure comes back as the library's own words.
#[verifier::external_body]
fn accelerator_device(ordinal: usize) -> (device: Result<Device, String>)
    ensures
        device matches Ok(d) ==> device_ordinal(d) == Some(ordinal),
{
    Device::new_cuda(ordinal).map_err(|e| e.to_string())
}

/// How a device shows itself in a status report.
pub uninterp spec fn device_text(device: Device) -> Seq<char>;

/// `<Device as Debug>::fmt`: how the device shows itself in a status report.
/// Assumed: the text depends on the device alone.
#[verifier::external_body]
pub(crate) fn device_label(device: &Device) -> (label: String)
    ensures
        label@ == device_text(*device),
{
    format!("{:?}", device)
}

/// A processor by name, before it is claimed.
#[derive(Clone, Copy, Debug, PartialEq, Eq, Structural)]
pub enum DeviceSpec {
    /// The host processor.
    Cpu,
    /// The accelerator with this ordinal.
    Cuda(usize),
}

/// A decimal digit.
pub open spec fn is_digit(c: char) -> bool {
    '0' <= c <= '9'
}

/// The number a digit stands for; zero for any other character.
pub open spec fn digit_value(c: char) -> nat {
    if is_digit(c) {
        (c as int - '0' as int) as nat
    } else {
        0
    }
}

/// Every character is a decimal digit.
pub open spec fn all_digits(s: Seq<char>) -> bool {
    forall|i: int| 0 <= i < s.len() ==> is_digit(#[trigger] s[i])
}

/// The number that a run of digits writes in base ten.
pub open spec fn decimal_value(s: Seq<char>) -> nat
    decreases s.len(),
{
    if s.len() == 0 {
        0
    } else {
        decimal_value(s.drop_last()) * 10 + digit_value(s.last())
    }
}

/// What follows an optional leading plus sign.
pub open spec fn unsigned_body(s: Seq<char>) -> Seq<char> {
    if s.len() > 0 && s[0] == '+' {
        s.skip(1)
    } else {
        s
    }
}

/// The number that a text writes: an optional plus sign, then one or more
/// decimal digits whose value `usize` holds. `None` for any other text.
pub open spec fn unsigned_of(s: Seq<char>) -> Option<usize> {
    let body = unsigned_body(s);
    if body.len() > 0 && all_digits(body) && decimal_value(body) <= usize::MAX {
        Some(decimal_value(body) as usize)
    } else {
        None
    }
}

/// The position of the first colon of `s` at or after `from`; the length of
/// `s` where there is none.
pub open spec fn colon_from(s: Seq<char>, from: int) -> int
    decreases s.len() - from,
{
    if from < 0 || from >= s.len() {
        s.len() as int
    } else if s[from] == ':' {
        from
    } else {
        colon_from(s, from + 1)
    }
}

/// The second of the fields that colons divide `s` into, if there are two.
pub open spec fn second_field(s: Seq<char>) -> Option<Seq<char>> {
    let first = colon_from(s, 0);
    if first >= s.len() {
        None
    } else {
        Some(s.subrange(first + 1, colon_from(s, first + 1)))
    }
}

/// What a device name means. `cpu` is the host; a name that begins with
/// `cuda` is an accelerator, whose ordinal is the second colon-separated field
/// and zero where there is no colon; anything else names no device.
pub open spec fn device_named(s: Seq<char>) -> Option<DeviceSpec> {
    if s == "cpu"@ {
        Some(DeviceSpec::Cpu)
    } else if has_prefix(s, "cuda"@) {
        match second_field(s) {
            None => Some(DeviceSpec::Cuda(0)),
            Some(field) => match unsigned_of(field) {
                Some(n) => Some(DeviceSpec::Cuda(n)),
                None => None,
            },
        }
    } else {
        None
    }
}

/// What is reported of a name that names no device.
pub open spec fn bad_device_text(s: Seq<char>) -> Seq<char> {
    if has_prefix(s, "cuda"@) {
        "Invalid CUDA device: "@ + s
    } else {
        "Unknown device: "@ + s
    }
}

/// What introduces the library's words when an accelerator cannot be claimed.
pub open spec fn accelerator_failure_heading() -> Seq<char> {
    "Failed to initialize CUDA device: "@
}

proof fn lemma_colon_from_found(s: Seq<char>, from: int, at: int)
    requires
        0 <= from <= at <= s.len(),
        forall|i: int| from <= i < at ==> s[i] != ':',
        at < s.len() ==> s[at] == ':',
    ensures
        colon_from(s, from) == at,
    decreases at - from,
{
    if from < at {
        lemma_colon_from_found(s, from + 1, at);
    }
}

proof fn lemma_decimal_value_grows(s: Seq<char>, k: int)
    requires
        0 <= k <= s.len(),
    ensures
        decimal_value(s.subrange(0, k)) <= decimal_value(s),
    decreases s.len() - k,
{
    if k < s.len() {
        let longer = s.subrange(0, k + 1);
        assert(longer.drop_last() == s.subrange(0, k));
        lemma_decimal_value_grows(s, k + 1);
    } else {
        assert(s.subrange(0, k) == s);
    }
}

/// The position of the first colon of `s` at or after `from`, counted in
/// characters, or the length of `s`.
fn find_colon(s: &str, from: usize, len: usize) -> (at: usize)
    requires
        len == s@.len(),
        from <= len,
    ensures
        at == colon_from(s@, from as int),
        from <= at <= len,
{
    let mut i: usize = from;
    while i < len
        invariant
            len == s@.len(),
            from <= i <= len,
            forall|j: int| from <= j < i ==> s@[j] != ':',
        decreases len - i,
    {
        if s.get_char(i) == ':' {
            proof {
                lemma_colon_from_found(s@, from as int, i as int);
            }
            return i;
        }
        i += 1;
    }
    proof {
        lemma_colon_from_found(s@, from as int, len as int);
    }
    len
}

/// Reads the characters of `s` from `from` up to `to` as an unsigned number.
fn read_unsigned(s: &str, from: usize, to: usize) -> (value: Option<usize>)
    requires
        from <= to <= s@.len(),
    ensures
        value == unsigned_of(s@.subrange(from as int, to as int)),
{
    let ghost field = s@.subrange(from as int, to as int);
    let mut start: usize = from;
    if from < to && s.get_char(from) == '+' {
        start = from + 1;
    }
    let ghost body = unsigned_body(field);
    assert(body == s@.subrange(start as int, to as int));
    if start == to {
        return None;
    }
    let mut acc: usize = 0;
    let mut i: usize = start;
    while i < to
        invariant
            from <= start <= i <= to <= s@.len(),
            start < to,
            field == s@.subrange(from as int, to as int),
            body == unsigned_body(field),
            body == s@.subrange(start as int, to as int),
            all_digits(body.subrange(0, i - start)),
            acc == decimal_value(body.subrange(0, i - start)),
        decreases to - i,
    {
        let c = s.get_char(i);
        assert(c == body[i - start]);
        if !(c >= '0' && c <= '9') {
            assert(!is_digit(body[i - start]));
            return None;
        }
        let d: usize = (c as u32 - '0' as u32) as usize;
        let ghost next = body.subrange(0, i - start + 1);
        assert(next.drop_last() == body.subrange(0, i - start));
        assert(next.last() == c);
        assert(decimal_value(next) == acc * 10 + d);
        if acc > (usize::MAX - d) / 10 {
            proof {
                assert(decimal_value(next) > usize::MAX);
                lemma_decimal_value_grows(body, i - start + 1);
            }
            return None;
        }
        acc = acc * 10 + d;
        assert forall|j: int| 0 <= j < next.len() implies is_digit(#[trigger] next[j]) by {
            if j < i - start {
                assert(next[j] == body.subrange(0, i - start)[j]);
            }
        }
        i += 1;
    }
    assert(body.subrange(0, to - start) == body);
    Some(acc)
}

/// Reads a device name; see [`device_named`]. A name that names no device
/// fails with `InvalidInput` and repeats the name.
pub fn parse_device_spec(name: &str) -> (parsed: Result<DeviceSpec, Error>)
    ensures
        match parsed {
            Ok(spec) => device_named(name@) == Some(spec),
            Err(e) => device_named(name@) is None && is_invalid_input(e, bad_device_text(name@)),
        },
{
    if same_text(name, "cpu") {
        return Ok(DeviceSpec::Cpu);
    }
    if !starts_with(name, "cuda") {
        return Err(Error::InvalidInput(labelled("Unknown device: ", name)));
    }
    let len = name.unicode_len();
    let first = find_colon(name, 0, len);
    if first >= len {
        return Ok(DeviceSpec::Cuda(0));
    }
    let second = find_colon(name, first + 1, len);
    match read_unsigned(name, first + 1, second) {
        Some(n) => Ok(DeviceSpec::Cuda(n)),
        None => Err(Error::InvalidInput(labelled("Invalid CUDA device: ", name))),
    }
}

/// Claims the device that a specification names. The host is always there;
/// an accelerator that cannot be claimed fails with `ConfigError`.
pub fn claim_device(spec: DeviceSpec) -> (claimed: Result<Device, Error>)
    ensures
        spec is Cpu ==> claimed is Ok,
        claimed matches Ok(d) ==> device_ordinal(d) == match spec {
            DeviceSpec::Cpu => None::<usize>,
            DeviceSpec::Cuda(n) => Some(n),
        },
        claimed matches Err(e) ==> e is ConfigError && has_prefix(
            e.detail(),
            accelerator_failure_heading(),
        ),
{
    match spec {
        DeviceSpec::Cpu => Ok(host_device()),
        DeviceSpec::Cuda(n) => match accelerator_device(n) {
            Ok(d) => Ok(d),
            Err(words) => {
                let detail = labelled("Failed to initialize CUDA device: ", words.as_str());
                assert(detail@.subrange(0, accelerator_failure_heading().len() as int)
                    == accelerator_failure_heading());
                Err(Error::ConfigError(detail))
            },
        },
    }
}

/// Reads a device name and claims the device. A name that names no device
/// fails with `InvalidInput`; a named accelerator that cannot be claimed
/// fails with `ConfigError`.
pub fn parse_device(name: &str) -> (device: Result<Device, Error>)
    ensures
        device_named(name@) == Some(DeviceSpec::Cpu) ==> device is Ok,
        device matches Ok(d) ==> device_named(name@) is Some && device_ordinal(d) == match device_named(
            name@,
        )->Some_0 {
            DeviceSpec::Cpu => None::<usize>,
            DeviceSpec::Cuda(n) => Some(n),
        },
        device matches Err(e) ==> if device_named(name@) is None {
            is_invalid_input(e, bad_device_text(name@))
        } else {
            e is ConfigError && has_prefix(e.detail(), accelerator_failure_heading())
        },
{
    let spec = parse_device_spec(name)?;
    claim_device(spec)
}

} // verus!
