//! Configuration model and the classification of configuration changes.
//!
//! A validated configuration describes the two devices, a filter catalog, a
//! mixer catalog and the pipeline built from them.  When a new configuration
//! arrives during a run, `config_diff` decides whether it can be applied in
//! place (parameter changes), needs the processing worker to rebuild its
//! graph (pipeline changes), or forces a full restart (device changes).
//! Numeric filter and mixer parameters are carried as scaled integers
//! (gains in milli-decibels), so comparisons are exact.

use vstd::prelude::*;

verus! {

/// Sample formats a device can be opened with.
#[derive(Clone, Copy, Debug, PartialEq, Eq, Structural)]
pub enum SampleFormat {
    S16LE,
    S24LE,
    S24LE3,
    S32LE,
    Float32LE,
    Float64LE,
}

/// One side of the audio chain: the device to open and how.
#[derive(Clone, Debug)]
pub struct DeviceConf {
    pub kind: String,
    pub device: String,
    pub channels: usize,
    pub format: SampleFormat,
}

/// The device section of a configuration.  Any change here requires a full
/// restart of the run.
#[derive(Clone, Debug)]
pub struct DevicesConf {
    pub samplerate: usize,
    pub chunksize: usize,
    pub queuelimit: usize,
    pub extra_samples: usize,
    pub capture: DeviceConf,
    pub playback: DeviceConf,
}

/// The known filter kinds.
#[derive(Clone, Copy, Debug, PartialEq, Eq, Structural)]
pub enum FilterKind {
    Biquad,
    Fir,
    Conv,
    Gain,
    Volume,
    Loudness,
    Delay,
    Dither,
}

/// One entry of the filter catalog: a named filter with its scaled numeric
/// parameters.
#[derive(Clone, Debug)]
pub struct FilterConf {
    pub name: String,
    pub kind: FilterKind,
    pub params: Vec<i64>,
}

/// One source feeding a mixer output channel: the capture-side channel, its
/// gain in mdB, and whether it is inverted.
#[derive(Clone, Copy, Debug, PartialEq, Eq, Structural)]
pub struct MixerSource {
    pub channel: usize,
    pub gain_mdb: i64,
    pub inverted: bool,
}

/// One output channel of a mixer and the sources mixed into it.
#[derive(Clone, Debug)]
pub struct MixerMapping {
    pub dest: usize,
    pub sources: Vec<MixerSource>,
}

/// One entry of the mixer catalog.
#[derive(Clone, Debug)]
pub struct MixerConf {
    pub name: String,
    pub channels_in: usize,
    pub channels_out: usize,
    pub mapping: Vec<MixerMapping>,
}

/// One pipeline step: route through a named mixer, or apply a chain of named
/// filters to one channel.
#[derive(Clone, Debug)]
pub enum PipelineStepConf {
    Mixer { name: String },
    Filters { channel: usize, names: Vec<String> },
}

/// A validated configuration.
#[derive(Clone, Debug)]
pub struct Configuration {
    pub devices: DevicesConf,
    pub filters: Vec<FilterConf>,
    pub mixers: Vec<MixerConf>,
    pub pipeline: Vec<PipelineStepConf>,
}

/// How a new configuration differs from the active one, ordered by severity.
#[derive(Clone, Debug)]
pub enum ConfigChange {
    /// The configurations are equivalent.
    NoChange,
    /// Only parameters of the named filters changed.
    FilterParameters { names: Vec<String> },
    /// Only mixer routing values changed; the graph shape is intact.
    MixerParameters,
    /// The graph itself changed (steps, catalog names or channel counts);
    /// the processing worker must rebuild its pipeline.
    Pipeline,
    /// The device section changed; the run must be torn down and restarted.
    Devices,
}

/// Two sequences of strings hold the same texts.
pub open spec fn string_seq_eqv(a: Seq<String>, b: Seq<String>) -> bool {
    a.len() == b.len() && (forall|i: int| 0 <= i < a.len() ==> a[i]@ == b[i]@)
}

/// The two device descriptions are equivalent.
pub open spec fn device_eqv(a: DeviceConf, b: DeviceConf) -> bool {
    a.kind@ == b.kind@ && a.device@ == b.device@ && a.channels == b.channels && a.format == b.format
}

/// The two device sections are equivalent.
pub open spec fn devices_eqv(a: DevicesConf, b: DevicesConf) -> bool {
    &&& a.samplerate == b.samplerate
    &&& a.chunksize == b.chunksize
    &&& a.queuelimit == b.queuelimit
    &&& a.extra_samples == b.extra_samples
    &&& device_eqv(a.capture, b.capture)
    &&& device_eqv(a.playback, b.playback)
}

/// The two filter entries are equivalent.
pub open spec fn filter_eqv(a: FilterConf, b: FilterConf) -> bool {
    a.name@ == b.name@ && a.kind == b.kind && a.params@ == b.params@
}

/// The two filter catalogs are equivalent.
pub open spec fn filters_eqv(a: Seq<FilterConf>, b: Seq<FilterConf>) -> bool {
    a.len() == b.len() && (forall|i: int| 0 <= i < a.len() ==> filter_eqv(a[i], b[i]))
}

/// The two filter catalogs list the same filters (names and kinds), though
/// their parameters may differ.
pub open spec fn filters_same_names(a: Seq<FilterConf>, b: Seq<FilterConf>) -> bool {
    a.len() == b.len() && (forall|i: int|
        0 <= i < a.len() ==> a[i].name@ == b[i].name@ && a[i].kind == b[i].kind)
}

/// The two mixer rows are equivalent.
pub open spec fn mapping_eqv(a: MixerMapping, b: MixerMapping) -> bool {
    a.dest == b.dest && a.sources@ == b.sources@
}

/// The two mixer entries are equivalent.
pub open spec fn mixer_eqv(a: MixerConf, b: MixerConf) -> bool {
    &&& a.name@ == b.name@
    &&& a.channels_in == b.channels_in
    &&& a.channels_out == b.channels_out
    &&& a.mapping@.len() == b.mapping@.len()
    &&& (forall|i: int| 0 <= i < a.mapping@.len() ==> mapping_eqv(a.mapping@[i], b.mapping@[i]))
}

/// The two mixer catalogs are equivalent.
pub open spec fn mixers_eqv(a: Seq<MixerConf>, b: Seq<MixerConf>) -> bool {
    a.len() == b.len() && (forall|i: int| 0 <= i < a.len() ==> mixer_eqv(a[i], b[i]))
}

/// The two mixer catalogs agree in shape: same names and channel counts,
/// though routing values may differ.
pub open spec fn mixers_same_shape(a: Seq<MixerConf>, b: Seq<MixerConf>) -> bool {
    a.len() == b.len() && (forall|i: int|
        0 <= i < a.len() ==> a[i].name@ == b[i].name@ && a[i].channels_in == b[i].channels_in
            && a[i].channels_out == b[i].channels_out)
}

/// The two pipeline steps are equivalent.
pub open spec fn step_eqv(a: PipelineStepConf, b: PipelineStepConf) -> bool {
    match a {
        PipelineStepConf::Mixer { name: an } => match b {
            PipelineStepConf::Mixer { name: bn } => an@ == bn@,
            PipelineStepConf::Filters { .. } => false,
        },
        PipelineStepConf::Filters { channel: ac, names: an } => match b {
            PipelineStepConf::Mixer { .. } => false,
            PipelineStepConf::Filters { channel: bc, names: bn } => ac == bc && string_seq_eqv(
                an@,
                bn@,
            ),
        },
    }
}

/// The two pipelines are equivalent.
pub open spec fn pipeline_eqv(a: Seq<PipelineStepConf>, b: Seq<PipelineStepConf>) -> bool {
    a.len() == b.len() && (forall|i: int| 0 <= i < a.len() ==> step_eqv(a[i], b[i]))
}

/// The configuration's graph shape is unchanged: the pipeline reads the
/// same, both catalogs list the same entries, and mixer channel counts are
/// intact.  Under an unchanged shape, parameter changes can be applied to
/// the running pipeline in place.
pub open spec fn shape_eqv(a: Configuration, b: Configuration) -> bool {
    pipeline_eqv(a.pipeline@, b.pipeline@) && filters_same_names(a.filters@, b.filters@)
        && mixers_same_shape(a.mixers@, b.mixers@)
}

/// The two configurations are fully equivalent.
pub open spec fn config_eqv(a: Configuration, b: Configuration) -> bool {
    devices_eqv(a.devices, b.devices) && shape_eqv(a, b) && mixers_eqv(a.mixers@, b.mixers@)
        && filters_eqv(a.filters@, b.filters@)
}

/// The names of the filters whose parameters differ between two catalogs of
/// equal length, in catalog order.
pub open spec fn changed_filter_names(a: Seq<FilterConf>, b: Seq<FilterConf>) -> Seq<Seq<char>>
    decreases b.len(),
{
    if a.len() != b.len() || b.len() == 0 {
        Seq::empty()
    } else {
        changed_filter_names(a.drop_last(), b.drop_last()) + (if !filter_eqv(a.last(), b.last()) {
            seq![b.last().name@]
        } else {
            Seq::empty()
        })
    }
}

/// Whether some source of the mixer reads input channel `c`.
pub open spec fn mixer_uses_channel(mx: MixerConf, c: int) -> bool {
    exists|i: int, j: int|
        0 <= i < mx.mapping@.len() && 0 <= j < mx.mapping@[i].sources@.len()
            && mx.mapping@[i].sources@[j].channel == c
}

/// `i` is the position of the first mixer step of the pipeline.
pub open spec fn is_first_mixer_at(p: Seq<PipelineStepConf>, i: int) -> bool {
    0 <= i < p.len() && (p[i] is Mixer) && (forall|j: int| 0 <= j < i ==> !(p[j] is Mixer))
}

/// `k` is the position of the first mixer of the catalog carrying `name`.
pub open spec fn is_first_mixer_named(mixers: Seq<MixerConf>, name: Seq<char>, k: int) -> bool {
    0 <= k < mixers.len() && mixers[k].name@ == name && (forall|j: int|
        0 <= j < k ==> mixers[j].name@ != name)
}

impl Configuration {
    /// The configuration resolves: every mixer step of the pipeline names a
    /// mixer of the catalog.  The external validator guarantees this.
    pub open spec fn wf(self) -> bool {
        forall|i: int|
            0 <= i < self.pipeline@.len() ==> match #[trigger] self.pipeline@[i] {
                PipelineStepConf::Mixer { name } => exists|k: int|
                    is_first_mixer_named(self.mixers@, name@, k),
                PipelineStepConf::Filters { .. } => true,
            }
    }
}

fn string_eq(a: &String, b: &String) -> (r: bool)
    ensures
        r == (a@ == b@),
{
    a.eq(b)
}

fn i64_vec_eq(a: &Vec<i64>, b: &Vec<i64>) -> (r: bool)
    ensures
        r == (a@ == b@),
{
    if a.len() != b.len() {
        proof {
            assert(a@ !== b@);
        }
        return false;
    }
    let mut i: usize = 0;
    while i < a.len()
        invariant
            0 <= i <= a@.len(),
            a@.len() == b@.len(),
            forall|j: int| 0 <= j < i ==> a@[j] == b@[j],
        decreases a@.len() - i,
    {
        if a[i] != b[i] {
            return false;
        }
        i += 1;
    }
    proof {
        assert(a@ =~= b@);
    }
    true
}

fn string_vec_eq(a: &Vec<String>, b: &Vec<String>) -> (r: bool)
    ensures
        r == string_seq_eqv(a@, b@),
{
    if a.len() != b.len() {
        return false;
    }
    let mut i: usize = 0;
    while i < a.len()
        invariant
            0 <= i <= a@.len(),
            a@.len() == b@.len(),
            forall|j: int| 0 <= j < i ==> a@[j]@ == b@[j]@,
        decreases a@.len() - i,
    {
        if !string_eq(&a[i], &b[i]) {
            return false;
        }
        i += 1;
    }
    true
}

fn source_vec_eq(a: &Vec<MixerSource>, b: &Vec<MixerSource>) -> (r: bool)
    ensures
        r == (a@ == b@),
{
    if a.len() != b.len() {
        proof {
            assert(a@ !== b@);
        }
        return false;
    }
    let mut i: usize = 0;
    while i < a.len()
        invariant
            0 <= i <= a@.len(),
            a@.len() == b@.len(),
            forall|j: int| 0 <= j < i ==> a@[j] == b@[j],
        decreases a@.len() - i,
    {
        if !(a[i] == b[i]) {
            return false;
        }
        i += 1;
    }
    proof {
        assert(a@ =~= b@);
    }
    true
}

fn device_eq(a: &DeviceConf, b: &DeviceConf) -> (r: bool)
    ensures
        r == device_eqv(*a, *b),
{
    string_eq(&a.kind, &b.kind) && string_eq(&a.device, &b.device) && a.channels == b.channels
        && a.format == b.format
}

fn devices_eq(a: &DevicesConf, b: &DevicesConf) -> (r: bool)
    ensures
        r == devices_eqv(*a, *b),
{
    a.samplerate == b.samplerate && a.chunksize == b.chunksize && a.queuelimit == b.queuelimit
        && a.extra_samples == b.extra_samples && device_eq(&a.capture, &b.capture) && device_eq(
        &a.playback,
        &b.playback,
    )
}

fn filter_eq(a: &FilterConf, b: &FilterConf) -> (r: bool)
    ensures
        r == filter_eqv(*a, *b),
{
    string_eq(&a.name, &b.name) && a.kind == b.kind && i64_vec_eq(&a.params, &b.params)
}

fn mixer_eq(a: &MixerConf, b: &MixerConf) -> (r: bool)
    ensures
        r == mixer_eqv(*a, *b),
{
    if !(string_eq(&a.name, &b.name) && a.channels_in == b.channels_in && a.channels_out
        == b.channels_out && a.mapping.len() == b.mapping.len()) {
        return false;
    }
    let mut i: usize = 0;
    while i < a.mapping.len()
        invariant
            0 <= i <= a.mapping@.len(),
            a.mapping@.len() == b.mapping@.len(),
            a.name@ == b.name@,
            a.channels_in == b.channels_in,
            a.channels_out == b.channels_out,
            forall|j: int| 0 <= j < i ==> mapping_eqv(a.mapping@[j], b.mapping@[j]),
        decreases a.mapping@.len() - i,
    {
        if a.mapping[i].dest != b.mapping[i].dest {
            return false;
        }
        if !source_vec_eq(&a.mapping[i].sources, &b.mapping[i].sources) {
            return false;
        }
        i += 1;
    }
    true
}

fn mixers_eq(a: &Vec<MixerConf>, b: &Vec<MixerConf>) -> (r: bool)
    ensures
        r == mixers_eqv(a@, b@),
{
    if a.len() != b.len() {
        return false;
    }
    let mut i: usize = 0;
    while i < a.len()
        invariant
            0 <= i <= a@.len(),
            a@.len() == b@.len(),
            forall|j: int| 0 <= j < i ==> mixer_eqv(a@[j], b@[j]),
        decreases a@.len() - i,
    {
        if !mixer_eq(&a[i], &b[i]) {
            return false;
        }
        i += 1;
    }
    true
}

fn mixers_shape_eq(a: &Vec<MixerConf>, b: &Vec<MixerConf>) -> (r: bool)
    ensures
        r == mixers_same_shape(a@, b@),
{
    if a.len() != b.len() {
        return false;
    }
    let mut i: usize = 0;
    while i < a.len()
        invariant
            0 <= i <= a@.len(),
            a@.len() == b@.len(),
            forall|j: int|
                0 <= j < i ==> a@[j].name@ == b@[j].name@ && a@[j].channels_in
                    == b@[j].channels_in && a@[j].channels_out == b@[j].channels_out,
        decreases a@.len() - i,
    {
        if !(string_eq(&a[i].name, &b[i].name) && a[i].channels_in == b[i].channels_in
            && a[i].channels_out == b[i].channels_out) {
            return false;
        }
        i += 1;
    }
    true
}

fn filters_names_eq(a: &Vec<FilterConf>, b: &Vec<FilterConf>) -> (r: bool)
    ensures
        r == filters_same_names(a@, b@),
{
    if a.len() != b.len() {
        return false;
    }
    let mut i: usize = 0;
    while i < a.len()
        invariant
            0 <= i <= a@.len(),
            a@.len() == b@.len(),
            forall|j: int| 0 <= j < i ==> a@[j].name@ == b@[j].name@ && a@[j].kind == b@[j].kind,
        decreases a@.len() - i,
    {
        if !(string_eq(&a[i].name, &b[i].name) && a[i].kind == b[i].kind) {
            return false;
        }
        i += 1;
    }
    true
}

fn step_eq(a: &PipelineStepConf, b: &PipelineStepConf) -> (r: bool)
    ensures
        r == step_eqv(*a, *b),
{
    match a {
        PipelineStepConf::Mixer { name: an } => match b {
            PipelineStepConf::Mixer { name: bn } => string_eq(an, bn),
            PipelineStepConf::Filters { .. } => false,
        },
        PipelineStepConf::Filters { channel: ac, names: an } => match b {
            PipelineStepConf::Mixer { .. } => false,
            PipelineStepConf::Filters { channel: bc, names: bn } => *ac == *bc && string_vec_eq(
                an,
                bn,
            ),
        },
    }
}

fn pipeline_eq(a: &Vec<PipelineStepConf>, b: &Vec<PipelineStepConf>) -> (r: bool)
    ensures
        r == pipeline_eqv(a@, b@),
{
    if a.len() != b.len() {
        return false;
    }
    let mut i: usize = 0;
    while i < a.len()
        invariant
            0 <= i <= a@.len(),
            a@.len() == b@.len(),
            forall|j: int| 0 <= j < i ==> step_eqv(a@[j], b@[j]),
        decreases a@.len() - i,
    {
        if !step_eq(&a[i], &b[i]) {
            return false;
        }
        i += 1;
    }
    true
}

/// The names of the filters whose parameters changed, in catalog order.
fn collect_changed_filters(a: &Vec<FilterConf>, b: &Vec<FilterConf>) -> (r: Vec<String>)
    requires
        a@.len() == b@.len(),
    ensures
        r@.map_values(|s: String| s@) == changed_filter_names(a@, b@),
        r@.len() == 0 <==> filters_eqv(a@, b@),
{
    let mut names: Vec<String> = Vec::new();
    let mut i: usize = 0;
    while i < a.len()
        invariant
            0 <= i <= a@.len(),
            a@.len() == b@.len(),
            names@.map_values(|s: String| s@) == changed_filter_names(
                a@.take(i as int),
                b@.take(i as int),
            ),
            names@.len() == 0 <==> (forall|j: int| 0 <= j < i ==> filter_eqv(a@[j], b@[j])),
        decreases a@.len() - i,
    {
        let ghost pre = names@;
        if !filter_eq(&a[i], &b[i]) {
            names.push(b[i].name.clone());
        }
        i += 1;
        proof {
            let ai = a@.take(i as int);
            let bi = b@.take(i as int);
            assert(ai.drop_last() =~= a@.take(i - 1));
            assert(bi.drop_last() =~= b@.take(i - 1));
            assert(ai.last() == a@[i - 1] && bi.last() == b@[i - 1]);
            if !filter_eqv(a@[i - 1], b@[i - 1]) {
                assert(names@ == pre.push(b@[i - 1].name));
                assert(names@.map_values(|s: String| s@) =~= pre.map_values(|s: String| s@)
                    + seq![b@[i - 1].name@]);
            } else {
                assert(names@.map_values(|s: String| s@) =~= changed_filter_names(ai, bi));
            }
        }
    }
    proof {
        assert(a@.take(a@.len() as int) =~= a@);
        assert(b@.take(b@.len() as int) =~= b@);
    }
    names
}

/// Classify how `new_conf` differs from `current`, by decreasing severity:
/// a changed device section forces a restart; a changed graph shape needs
/// the pipeline rebuilt; changed mixer routing values or filter parameters
/// are applied in place; otherwise nothing changed.
pub fn config_diff(current: &Configuration, new_conf: &Configuration) -> (r: ConfigChange)
    ensures
        (r is Devices) <==> !devices_eqv(current.devices, new_conf.devices),
        (r is Pipeline) <==> (devices_eqv(current.devices, new_conf.devices) && !shape_eqv(
            *current,
            *new_conf,
        )),
        (r is MixerParameters) <==> (devices_eqv(current.devices, new_conf.devices) && shape_eqv(
            *current,
            *new_conf,
        ) && !mixers_eqv(current.mixers@, new_conf.mixers@)),
        (r matches ConfigChange::FilterParameters { names } ==> names@.map_values(|s: String| s@)
            == changed_filter_names(current.filters@, new_conf.filters@)),
        (r is FilterParameters) <==> (devices_eqv(current.devices, new_conf.devices) && shape_eqv(
            *current,
            *new_conf,
        ) && mixers_eqv(current.mixers@, new_conf.mixers@) && !filters_eqv(
            current.filters@,
            new_conf.filters@,
        )),
        (r is NoChange) <==> config_eqv(*current, *new_conf),
{
    if !devices_eq(&current.devices, &new_conf.devices) {
        return ConfigChange::Devices;
    }
    if !(pipeline_eq(&current.pipeline, &new_conf.pipeline) && filters_names_eq(
        &current.filters,
        &new_conf.filters,
    ) && mixers_shape_eq(&current.mixers, &new_conf.mixers)) {
        return ConfigChange::Pipeline;
    }
    if !mixers_eq(&current.mixers, &new_conf.mixers) {
        return ConfigChange::MixerParameters;
    }
    let names = collect_changed_filters(&current.filters, &new_conf.filters);
    if names.len() > 0 {
        ConfigChange::FilterParameters { names }
    } else {
        ConfigChange::NoChange
    }
}

/// Whether some source of the mixer reads input channel `c`.
fn mixer_uses(mx: &MixerConf, c: usize) -> (r: bool)
    ensures
        r == mixer_uses_channel(*mx, c as int),
{
    let mut i: usize = 0;
    while i < mx.mapping.len()
        invariant
            0 <= i <= mx.mapping@.len(),
            forall|p: int, q: int|
                0 <= p < i && 0 <= q < mx.mapping@[p].sources@.len()
                    ==> mx.mapping@[p].sources@[q].channel != c,
        decreases mx.mapping@.len() - i,
    {
        let row = &mx.mapping[i];
        let mut j: usize = 0;
        while j < row.sources.len()
            invariant
                0 <= j <= row.sources@.len(),
                row == mx.mapping@[i as int],
                0 <= i < mx.mapping@.len(),
                forall|q: int| 0 <= q < j ==> row.sources@[q].channel != c,
            decreases row.sources@.len() - j,
        {
            if row.sources[j].channel == c {
                return true;
            }
            j += 1;
        }
        i += 1;
    }
    false
}

/// The mixer name carried by a mixer step.
pub open spec fn step_mixer_name(s: PipelineStepConf) -> Seq<char> {
    match s {
        PipelineStepConf::Mixer { name } => name@,
        PipelineStepConf::Filters { .. } => Seq::empty(),
    }
}

/// `s` is the used-capture-channel list of `conf`: ascending, and drawn from
/// the first mixer of the pipeline when there is one, else all capture
/// channels.
pub open spec fn is_used_capture_channels(conf: Configuration, s: Seq<usize>) -> bool {
    &&& (forall|p: int, q: int| 0 <= p < q < s.len() ==> s[p] < s[q])
    &&& ((forall|i: int| 0 <= i < conf.pipeline@.len() ==> !(#[trigger] conf.pipeline@[i]
        is Mixer)) ==> (s.len() == conf.devices.capture.channels && (forall|k: int|
        0 <= k < s.len() ==> s[k] == k)))
    &&& (forall|i: int, k: int|
        #![trigger is_first_mixer_at(conf.pipeline@, i), conf.mixers@[k]]
        is_first_mixer_at(conf.pipeline@, i) && is_first_mixer_named(
            conf.mixers@,
            step_mixer_name(conf.pipeline@[i]),
            k,
        ) ==> (forall|c: usize|
            s.contains(c) <==> c < conf.mixers@[k].channels_in && mixer_uses_channel(
                conf.mixers@[k],
                c as int,
            )))
}

/// The capture channels the running graph actually reads, in ascending
/// order.  When the pipeline routes through a mixer, its first mixer decides
/// which input channels are used; with no mixer every capture channel is.
pub fn get_used_capture_channels(conf: &Configuration) -> (r: Vec<usize>)
    requires
        conf.wf(),
    ensures
        is_used_capture_channels(*conf, r@),
{
    let mut step_idx: usize = 0;
    let mut found_step = false;
    while step_idx < conf.pipeline.len() && !found_step
        invariant
            0 <= step_idx <= conf.pipeline@.len(),
            !found_step ==> (forall|j: int|
                0 <= j < step_idx ==> !(#[trigger] conf.pipeline@[j] is Mixer)),
            found_step ==> is_first_mixer_at(conf.pipeline@, step_idx as int),
        decreases conf.pipeline@.len() - step_idx, (if found_step {
            0int
        } else {
            1int
        }),
    {
        match &conf.pipeline[step_idx] {
            PipelineStepConf::Mixer { .. } => {
                found_step = true;
            },
            PipelineStepConf::Filters { .. } => {
                step_idx += 1;
            },
        }
    }
    if !found_step {
        let n = conf.devices.capture.channels;
        let mut all: Vec<usize> = Vec::new();
        let mut c: usize = 0;
        while c < n
            invariant
                0 <= c <= n,
                all@.len() == c,
                forall|k: int| 0 <= k < c ==> all@[k] == k,
            decreases n - c,
        {
            all.push(c);
            c += 1;
        }
        all
    } else {
        let name: &String = match &conf.pipeline[step_idx] {
            PipelineStepConf::Mixer { name } => name,
            PipelineStepConf::Filters { .. } => {
                proof {
                    assert(false);
                }
                &conf.devices.capture.kind
            },
        };
        let mut mixer_idx: usize = 0;
        let mut found = false;
        let mut k: usize = 0;
        while k < conf.mixers.len() && !found
            invariant
                0 <= k <= conf.mixers@.len(),
                !found ==> (forall|j: int| 0 <= j < k ==> conf.mixers@[j].name@ != name@),
                found ==> is_first_mixer_named(conf.mixers@, name@, mixer_idx as int),
            decreases conf.mixers@.len() - k, (if found {
                0int
            } else {
                1int
            }),
        {
            if string_eq(&conf.mixers[k].name, name) {
                mixer_idx = k;
                found = true;
            } else {
                k += 1;
            }
        }
        proof {
            if !found {
                assert(conf.pipeline@[step_idx as int] matches PipelineStepConf::Mixer {
                    name: n2 } && n2@ == name@);
                assert(is_first_mixer_at(conf.pipeline@, step_idx as int));
                let w = choose|w: int| is_first_mixer_named(conf.mixers@, name@, w);
                assert(false);
            }
        }
        {
            let mx = &conf.mixers[mixer_idx];
            let mut used: Vec<usize> = Vec::new();
            let mut c: usize = 0;
            while c < mx.channels_in
                invariant
                    0 <= c <= mx.channels_in,
                    mx == conf.mixers@[mixer_idx as int],
                    0 <= mixer_idx < conf.mixers@.len(),
                    forall|p: int, q: int| 0 <= p < q < used@.len() ==> used@[p] < used@[q],
                    forall|p: int| 0 <= p < used@.len() ==> used@[p] < c,
                    forall|ch: usize|
                        used@.contains(ch) <==> ch < c && mixer_uses_channel(*mx, ch as int),
                decreases mx.channels_in - c,
            {
                let ghost pre = used@;
                if mixer_uses(mx, c) {
                    used.push(c);
                    proof {
                        assert forall|ch: usize|
                            used@.contains(ch) <==> ch < c + 1 && mixer_uses_channel(
                                *mx,
                                ch as int,
                            ) by {
                            if used@.contains(ch) {
                                let w = choose|w: int|
                                    0 <= w < used@.len() && used@[w] == ch;
                                if w < pre.len() {
                                    assert(pre.contains(ch));
                                }
                            }
                            if ch < c + 1 && mixer_uses_channel(*mx, ch as int) {
                                if ch < c {
                                    assert(pre.contains(ch));
                                    let w = choose|w: int|
                                        0 <= w < pre.len() && pre[w] == ch;
                                    assert(used@[w] == ch);
                                } else {
                                    assert(used@[used@.len() - 1] == ch);
                                }
                            }
                        }
                    }
                } else {
                    proof {
                        assert forall|ch: usize|
                            used@.contains(ch) <==> ch < c + 1 && mixer_uses_channel(
                                *mx,
                                ch as int,
                            ) by {
                            if ch < c + 1 && mixer_uses_channel(*mx, ch as int) {
                                assert(ch != c);
                            }
                        }
                    }
                }
                c += 1;
            }
            proof {
                assert forall|i: int, k: int|
                    is_first_mixer_at(conf.pipeline@, i) && is_first_mixer_named(
                        conf.mixers@,
                        step_mixer_name(conf.pipeline@[i]),
                        k,
                    ) implies (forall|ch: usize|
                    used@.contains(ch) <==> ch < conf.mixers@[k].channels_in && mixer_uses_channel(
                        conf.mixers@[k],
                        ch as int,
                    )) by {
                    assert(i == step_idx as int);
                    assert(step_mixer_name(conf.pipeline@[i]) == name@);
                    assert(k == mixer_idx as int);
                }
            }
            used
        }
    }
}

} // verus!
