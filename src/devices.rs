use vstd::prelude::*;

use crate::error::{AudioError, BackendStep};
use crate::registry::StreamConfig;

verus! {

/// Sample formats a device may offer.
#[derive(Clone, Copy, Debug, PartialEq, Eq, Structural)]
pub enum SampleFormat {
    I8,
    I16,
    I32,
    I64,
    U8,
    U16,
    U32,
    U64,
    F32,
    F64,
    /// A format the backend offers that none of the above names.
    Other,
}

/// One supported input configuration of a device: a channel count and
/// sample format over a range of sample rates.
#[derive(Clone, Copy, Debug, PartialEq, Eq, Structural)]
pub struct ConfigRange {
    pub channels: u16,
    pub min_sample_rate: u32,
    pub max_sample_rate: u32,
    pub sample_format: SampleFormat,
}

/// The device goes by exactly `name`; a device whose name cannot be read
/// goes by no name.
pub open spec fn is_named(d: Option<String>, name: Seq<char>) -> bool {
    match d {
        Some(n) => n@ == name,
        None => false,
    }
}

/// Some enumerated device goes by `name`.
pub open spec fn has_device(devices: Seq<Option<String>>, name: Seq<char>) -> bool {
    exists|j: int| 0 <= j < devices.len() && #[trigger] is_named(devices[j], name)
}

/// `i` is the first configuration with 32-bit float samples.
pub open spec fn is_first_f32(configs: Seq<ConfigRange>, i: int) -> bool {
    &&& 0 <= i < configs.len()
    &&& configs[i].sample_format == SampleFormat::F32
    &&& forall|j: int| 0 <= j < i ==> (#[trigger] configs[j]).sample_format != SampleFormat::F32
}

/// A configuration range opened at its highest sample rate.
pub open spec fn at_max_rate(c: ConfigRange) -> StreamConfig {
    StreamConfig { channels: c.channels, sample_rate: c.max_sample_rate }
}

/// The index of the first device that goes by exactly `name`, or
/// `DeviceNotFound`. A device whose name could not be read matches no name.
pub fn find_device(devices: &Vec<Option<String>>, name: &String) -> (r: Result<usize, AudioError>)
    ensures
        match r {
            Ok(i) => {
                &&& i < devices.len()
                &&& is_named(devices@[i as int], name@)
                &&& forall|j: int| 0 <= j < i ==> !is_named(#[trigger] devices@[j], name@)
            },
            Err(e) => e == AudioError::DeviceNotFound && !has_device(devices@, name@),
        },
        r is Err <==> !has_device(devices@, name@),
{
    let mut i: usize = 0;
    while i < devices.len()
        invariant
            i <= devices.len(),
            forall|j: int| 0 <= j < i ==> !is_named(#[trigger] devices@[j], name@),
        decreases devices.len() - i,
    {
        let hit = match &devices[i] {
            Some(n) => *n == *name,
            None => false,
        };
        if hit {
            assert(is_named(devices@[i as int], name@));
            return Ok(i);
        }
        i = i + 1;
    }
    Err(AudioError::DeviceNotFound)
}

/// The first configuration with 32-bit float samples, opened at its
/// highest sample rate, or `UnsupportedFormat`.
pub fn select_config(configs: &Vec<ConfigRange>) -> (r: Result<StreamConfig, AudioError>)
    ensures
        match r {
            Ok(c) => exists|i: int| is_first_f32(configs@, i) && c == at_max_rate(configs@[i]),
            Err(e) => e == AudioError::UnsupportedFormat && forall|j: int|
                0 <= j < configs.len() ==> (#[trigger] configs@[j]).sample_format != SampleFormat::F32,
        },
{
    let mut i: usize = 0;
    while i < configs.len()
        invariant
            i <= configs.len(),
            forall|j: int| 0 <= j < i ==> (#[trigger] configs@[j]).sample_format != SampleFormat::F32,
        decreases configs.len() - i,
    {
        let c = configs[i];
        if c.sample_format == SampleFormat::F32 {
            let cfg = StreamConfig { channels: c.channels, sample_rate: c.max_sample_rate };
            assert(is_first_f32(configs@, i as int));
            return Ok(cfg);
        }
        i = i + 1;
    }
    Err(AudioError::UnsupportedFormat)
}

/// The names of all enumerated devices, in order, or the failure of the
/// first name that could not be read, with the backend's message.
pub fn collect_device_names(devices: &Vec<Result<String, String>>) -> (r: Result<Vec<String>, AudioError>)
    ensures
        match r {
            Ok(names) => {
                &&& names.len() == devices.len()
                &&& forall|i: int| 0 <= i < devices.len() ==> #[trigger] devices@[i] == Ok::<String, String>(names@[i])
            },
            Err(e) => exists|i: int|
                {
                    &&& 0 <= i < devices.len()
                    &&& #[trigger] devices@[i] is Err
                    &&& forall|j: int| 0 <= j < i ==> (#[trigger] devices@[j]) is Ok
                    &&& e == AudioError::BackendFailure(BackendStep::DeviceName, devices@[i]->Err_0)
                },
        },
{
    let mut names: Vec<String> = Vec::new();
    let mut i: usize = 0;
    while i < devices.len()
        invariant
            i <= devices.len(),
            names.len() == i,
            forall|k: int| 0 <= k < i ==> #[trigger] devices@[k] == Ok::<String, String>(names@[k]),
        decreases devices.len() - i,
    {
        match &devices[i] {
            Ok(n) => names.push(n.clone()),
            Err(msg) => {
                let msg = msg.clone();
                assert(devices@[i as int] == Err::<String, String>(msg));
                assert forall|j: int| 0 <= j < i implies (#[trigger] devices@[j]) is Ok by {
                    assert(devices@[j] == Ok::<String, String>(names@[j]));
                }
                return Err(AudioError::BackendFailure(BackendStep::DeviceName, msg));
            },
        }
        i = i + 1;
    }
    Ok(names)
}

} // verus!
