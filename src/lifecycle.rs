//! Opening, starting and pausing capture streams. The backend's work is
//! handed in as closures; what this module decides is proved for every
//! outcome of them.
use vstd::prelude::*;

use crate::devices::{at_max_rate, is_named, find_device, has_device, is_first_f32, select_config, ConfigRange, SampleFormat};
use crate::error::{AudioError, BackendStep};
use crate::registry::{StreamConfig, StreamEntry, StreamRegistry};

verus! {

/// `i` is the first device that goes by `name`.
pub open spec fn is_first_device(devices: Seq<Option<String>>, name: Seq<char>, i: int) -> bool {
    &&& 0 <= i < devices.len()
    &&& is_named(devices[i], name)
    &&& forall|j: int| 0 <= j < i ==> !is_named(#[trigger] devices[j], name)
}

/// Opens a capture stream on the first device called `name`.
///
/// The steps, each of which may end the call with its error: find the
/// device (`DeviceNotFound`); ask the backend for its supported
/// configurations through `supported_configs`, given the device's index
/// (`BackendFailure(SupportedConfigs, ..)` with the backend's message); pick
/// the first one with 32-bit float samples at its highest rate
/// (`UnsupportedFormat`); take the next handle (`HandlesExhausted`); build
/// the stream through `build`, given the device's index, the handle and the
/// configuration (`BackendFailure(BuildStream, ..)` with the backend's
/// message). Only a built stream is registered: a failed open changes
/// nothing.
pub fn open_input_stream<S, C, B>(
    streams: &mut StreamRegistry<S>,
    devices: &Vec<Option<String>>,
    name: &String,
    supported_configs: C,
    build: B,
) -> (r: Result<(u64, StreamConfig), AudioError>) where
    C: FnOnce(usize) -> Result<Vec<ConfigRange>, String>,
    B: FnOnce(usize, u64, StreamConfig) -> Result<S, String>,

    requires
        old(streams).wf(),
        forall|i: usize| #[trigger] supported_configs.requires((i,)),
        forall|i: usize, h: u64, c: StreamConfig| #[trigger] build.requires((i, h, c)),
    ensures
        final(streams).wf(),
        StreamRegistry::step(
            *old(streams),
            *final(streams),
            match r {
                Ok((h, _)) => Some(h),
                Err(_) => None::<u64>,
            },
        ),
        r == Err::<(u64, StreamConfig), AudioError>(AudioError::DeviceNotFound) <==> !has_device(devices@, name@),
        ({
            &&& has_device(devices@, name@)
            &&& old(streams).next() < u64::MAX
            &&& forall|i: usize, configs: Result<Vec<ConfigRange>, String>|
                #[trigger] supported_configs.ensures((i,), configs) ==> configs is Ok && exists|k: int|
                    #[trigger] is_first_f32(configs->Ok_0@, k)
            &&& forall|i: usize, h: u64, c: StreamConfig, out: Result<S, String>|
                #[trigger] build.ensures((i, h, c), out) ==> out is Ok
        }) ==> r is Ok,
        ({
            &&& has_device(devices@, name@)
            &&& forall|i: usize, configs: Result<Vec<ConfigRange>, String>|
                #[trigger] supported_configs.ensures((i,), configs) ==> configs is Ok && forall|j: int|
                    0 <= j < configs->Ok_0@.len() ==> (#[trigger] configs->Ok_0@[j]).sample_format
                        != SampleFormat::F32
        }) ==> r == Err::<(u64, StreamConfig), AudioError>(AudioError::UnsupportedFormat),
        match r {
            Ok((h, config)) => {
                &&& h == old(streams).next()
                &&& final(streams).next() == old(streams).next() + 1
                &&& !old(streams).entries().contains_key(h)
                &&& final(streams).entries().len() == old(streams).entries().len() + 1
                &&& final(streams).entries() == old(streams).entries().insert(
                    h,
                    StreamEntry { stream: final(streams).entries()[h].stream, config },
                )
                &&& exists|i: usize, configs: Result<Vec<ConfigRange>, String>|
                    {
                        &&& is_first_device(devices@, name@, i as int)
                        &&& #[trigger] supported_configs.ensures((i,), configs)
                        &&& configs is Ok
                        &&& exists|k: int|
                            #[trigger] is_first_f32(configs->Ok_0@, k) && config == at_max_rate(configs->Ok_0@[k])
                        &&& build.ensures((i, h, config), Ok::<S, String>(final(streams).entries()[h].stream))
                    }
            },
            Err(e) => {
                &&& final(streams).entries() == old(streams).entries()
                &&& final(streams).next() == old(streams).next()
                &&& {
                    ||| e == AudioError::DeviceNotFound
                    ||| exists|i: usize, msg: String|
                        {
                            &&& is_first_device(devices@, name@, i as int)
                            &&& #[trigger] supported_configs.ensures((i,), Err::<Vec<ConfigRange>, String>(msg))
                            &&& e == AudioError::BackendFailure(BackendStep::SupportedConfigs, msg)
                        }
                    ||| e == AudioError::UnsupportedFormat && exists|i: usize, configs: Result<Vec<ConfigRange>, String>|
                        {
                            &&& is_first_device(devices@, name@, i as int)
                            &&& #[trigger] supported_configs.ensures((i,), configs)
                            &&& configs is Ok
                            &&& forall|j: int| 0 <= j < configs->Ok_0@.len()
                                ==> (#[trigger] configs->Ok_0@[j]).sample_format != SampleFormat::F32
                        }
                    ||| e == AudioError::HandlesExhausted && old(streams).next() == u64::MAX
                        && exists|i: usize, configs: Result<Vec<ConfigRange>, String>|
                        {
                            &&& is_first_device(devices@, name@, i as int)
                            &&& #[trigger] supported_configs.ensures((i,), configs)
                            &&& configs is Ok
                            &&& exists|k: int| #[trigger] is_first_f32(configs->Ok_0@, k)
                        }
                    ||| old(streams).next() < u64::MAX && exists|i: usize, configs: Result<Vec<ConfigRange>, String>|
                        {
                            &&& is_first_device(devices@, name@, i as int)
                            &&& #[trigger] supported_configs.ensures((i,), configs)
                            &&& configs is Ok
                            &&& exists|k: int, msg: String|
                                is_first_f32(configs->Ok_0@, k) && #[trigger] build.ensures(
                                    (i, old(streams).next(), at_max_rate(configs->Ok_0@[k])),
                                    Err::<S, String>(msg),
                                ) && e == AudioError::BackendFailure(BackendStep::BuildStream, msg)
                        }
                }
            },
        },
{
    let i = match find_device(devices, name) {
        Ok(i) => i,
        Err(e) => return Err(e),
    };
    let configs = supported_configs(i);
    let ghost seen = configs;
    assert(is_first_device(devices@, name@, i as int));
    assert(supported_configs.ensures((i,), seen));
    let configs = match configs {
        Ok(c) => c,
        Err(msg) => return Err(AudioError::BackendFailure(BackendStep::SupportedConfigs, msg)),
    };
    let config = match select_config(&configs) {
        Ok(c) => c,
        Err(e) => return Err(e),
    };
    let ghost k = choose|k: int| is_first_f32(configs@, k) && config == at_max_rate(configs@[k]);
    let h = match streams.next_handle() {
        Some(h) => h,
        None => return Err(AudioError::HandlesExhausted),
    };
    let stream = match build(i, h, config) {
        Ok(s) => s,
        Err(msg) => {
            assert(build.ensures((i, h, at_max_rate(seen->Ok_0@[k])), Err::<S, String>(msg)));
            return Err(AudioError::BackendFailure(BackendStep::BuildStream, msg));
        },
    };
    let ghost built = stream;
    let id = streams.insert(StreamEntry { stream, config });
    assert(streams.entries()[h].stream == built);
    Ok((id, config))
}

/// The outcome of a backend command on a stream: success, or the step's
/// failure with the backend's message.
pub open spec fn command_result(out: Result<(), String>, step: BackendStep) -> Result<(), AudioError> {
    match out {
        Ok(()) => Ok(()),
        Err(msg) => Err(AudioError::BackendFailure(step, msg)),
    }
}

/// Runs `command` on the stream under `h`; `step` names the command.
fn command_stream<S, F>(streams: &StreamRegistry<S>, h: u64, command: F, step: BackendStep) -> (r: Result<(), AudioError>) where
    F: FnOnce(&S) -> Result<(), String>,

    requires
        forall|s: &S| #[trigger] command.requires((s,)),
    ensures
        !streams.entries().contains_key(h) ==> r == Err::<(), AudioError>(AudioError::NotFound),
        streams.entries().contains_key(h) ==> exists|out: Result<(), String>|
            #[trigger] command.ensures((&streams.entries()[h].stream,), out)
                && r == command_result(out, step),
{
    match streams.get(h) {
        Ok(entry) => {
            let out = command(&entry.stream);
            match out {
                Ok(()) => Ok(()),
                Err(msg) => Err(AudioError::BackendFailure(step, msg)),
            }
        },
        Err(e) => Err(e),
    }
}

/// Starts, or resumes, the stream under `h` through `play`, which reports
/// the backend's outcome. An absent handle is `NotFound`; a backend
/// failure is `BackendFailure(Play, ..)` with its message. The registry is
/// not changed.
pub fn start_stream<S, P>(streams: &StreamRegistry<S>, h: u64, play: P) -> (r: Result<(), AudioError>) where
    P: FnOnce(&S) -> Result<(), String>,

    requires
        forall|s: &S| #[trigger] play.requires((s,)),
    ensures
        !streams.entries().contains_key(h) ==> r == Err::<(), AudioError>(AudioError::NotFound),
        streams.entries().contains_key(h) ==> exists|out: Result<(), String>|
            #[trigger] play.ensures((&streams.entries()[h].stream,), out)
                && r == command_result(out, BackendStep::Play),
{
    command_stream(streams, h, play, BackendStep::Play)
}

/// Pauses the stream under `h` through `pause`, which reports the backend's
/// outcome. An absent handle is `NotFound`; a backend failure is
/// `BackendFailure(Pause, ..)` with its message. The registry is not
/// changed.
pub fn pause_stream<S, P>(streams: &StreamRegistry<S>, h: u64, pause: P) -> (r: Result<(), AudioError>) where
    P: FnOnce(&S) -> Result<(), String>,

    requires
        forall|s: &S| #[trigger] pause.requires((s,)),
    ensures
        !streams.entries().contains_key(h) ==> r == Err::<(), AudioError>(AudioError::NotFound),
        streams.entries().contains_key(h) ==> exists|out: Result<(), String>|
            #[trigger] pause.ensures((&streams.entries()[h].stream,), out)
                && r == command_result(out, BackendStep::Pause),
{
    command_stream(streams, h, pause, BackendStep::Pause)
}

} // verus!
