//! Encoder and container negotiation.
//!
//! Negotiation is a function of the codec registry alone: given the element
//! names that the registry can instantiate, it returns the first candidate of
//! a fixed priority list that is among them.

use crate::config::ContainerFormat;
use vstd::prelude::*;

verus! {

/// H.264 encoders in order of preference: hardware first, software last.
pub const H264_ENCODERS: [&'static str; 3] = ["vaapih264enc", "nvh264enc", "x264enc"];

/// AAC encoders in order of preference.
pub const AAC_ENCODERS: [&'static str; 3] = ["fdkaacenc", "voaacenc", "avenc_aac"];

/// Opus encoders in order of preference.
pub const OPUS_ENCODERS: [&'static str; 1] = ["opusenc"];

/// The names of the elements that a codec registry can instantiate. A plugin
/// that is listed but cannot be loaded is not among them.
#[derive(Debug)]
pub struct CodecRegistry {
    instantiable: Vec<String>,
}

impl View for CodecRegistry {
    type V = Set<Seq<char>>;

    closed spec fn view(&self) -> Set<Seq<char>> {
        Set::new(
            |name: Seq<char>|
                exists|i: int| 0 <= i < self.instantiable@.len() && self.instantiable@[i]@ == name,
        )
    }
}

impl CodecRegistry {
    /// A registry that can instantiate nothing, as when the media engine is
    /// absent.
    pub fn new() -> (r: Self)
        ensures
            r@ == Set::<Seq<char>>::empty(),
    {
        let r = CodecRegistry { instantiable: Vec::new() };
        assert(r@ =~= Set::<Seq<char>>::empty());
        r
    }

    /// Records that the element `name` can be instantiated.
    pub fn register(&mut self, name: &str)
        ensures
            final(self)@ == old(self)@.insert(name@),
    {
        let ghost before = self.instantiable@;
        self.instantiable.push(name.to_owned());
        assert forall|n: Seq<char>| final(self)@.contains(n) == old(self)@.insert(name@).contains(
            n,
        ) by {
            let after = self.instantiable@;
            if old(self)@.insert(name@).contains(n) {
                if n == name@ {
                    assert(after[before.len() as int]@ == n);
                } else {
                    let i = choose|i: int| 0 <= i < before.len() && before[i]@ == n;
                    assert(after[i]@ == n);
                }
            }
            if final(self)@.contains(n) {
                let i = choose|i: int| 0 <= i < after.len() && after[i]@ == n;
                if i < before.len() {
                    assert(before[i]@ == n);
                }
            }
        }
        assert(final(self)@ =~= old(self)@.insert(name@));
    }

    /// Whether the element `name` can be instantiated.
    pub fn can_instantiate(&self, name: &str) -> (b: bool)
        ensures
            b == self@.contains(name@),
    {
        let wanted = name.to_owned();
        let mut i: usize = 0;
        while i < self.instantiable.len()
            invariant
                i <= self.instantiable@.len(),
                wanted@ == name@,
                forall|j: int| 0 <= j < i ==> self.instantiable@[j]@ != name@,
            decreases self.instantiable@.len() - i,
        {
            if self.instantiable[i] == wanted {
                return true;
            }
            i += 1;
        }
        false
    }
}

impl Default for CodecRegistry {
    fn default() -> (r: Self)
        ensures
            r@ == Set::<Seq<char>>::empty(),
    {
        CodecRegistry::new()
    }
}

/// The H.264 candidates, as text.
pub open spec fn h264_candidates() -> Seq<Seq<char>> {
    seq!["vaapih264enc"@, "nvh264enc"@, "x264enc"@]
}

/// The AAC candidates, as text.
pub open spec fn aac_candidates() -> Seq<Seq<char>> {
    seq!["fdkaacenc"@, "voaacenc"@, "avenc_aac"@]
}

/// The Opus candidates, as text.
pub open spec fn opus_candidates() -> Seq<Seq<char>> {
    seq!["opusenc"@]
}

/// The audio candidates for a container, in the order in which they are
/// tried: the container's own family first, then the family of the other
/// container. MP4 prefers AAC and falls back to Opus; MKV prefers Opus and
/// falls back to AAC.
pub open spec fn audio_candidates(container: ContainerFormat) -> Seq<Seq<char>> {
    match container {
        ContainerFormat::Mp4 => aac_candidates() + opus_candidates(),
        ContainerFormat::Mkv => opus_candidates() + aac_candidates(),
    }
}

/// The first candidate that the registry can instantiate, if there is one.
pub open spec fn first_instantiable(candidates: Seq<Seq<char>>, registry: Set<Seq<char>>) -> Option<
    Seq<char>,
>
    decreases candidates.len(),
{
    if candidates.len() == 0 {
        None
    } else if registry.contains(candidates[0]) {
        Some(candidates[0])
    } else {
        first_instantiable(candidates.drop_first(), registry)
    }
}

/// The muxer element of each container.
pub open spec fn muxer_name(container: ContainerFormat) -> Seq<char> {
    match container {
        ContainerFormat::Mp4 => "mp4mux"@,
        ContainerFormat::Mkv => "matroskamux"@,
    }
}

/// The text of an optional element name.
pub open spec fn name_of(choice: Option<&'static str>) -> Option<Seq<char>> {
    match choice {
        Some(name) => Some(name@),
        None => None,
    }
}

/// The texts of a list of element names.
pub open spec fn names_of(candidates: Seq<&'static str>) -> Seq<Seq<char>> {
    candidates.map_values(|name: &'static str| name@)
}

/// Skipping a candidate that the registry lacks does not change the choice.
proof fn lemma_skip_unusable(candidates: Seq<Seq<char>>, registry: Set<Seq<char>>, i: int)
    requires
        0 <= i < candidates.len(),
        !registry.contains(candidates[i]),
    ensures
        first_instantiable(candidates.skip(i), registry) == first_instantiable(
            candidates.skip(i + 1),
            registry,
        ),
{
    assert(candidates.skip(i).drop_first() =~= candidates.skip(i + 1));
}

/// Choosing from two lists in a row is choosing from the first and, if that
/// yields nothing, from the second.
pub proof fn lemma_first_instantiable_concat(
    first: Seq<Seq<char>>,
    second: Seq<Seq<char>>,
    registry: Set<Seq<char>>,
)
    ensures
        first_instantiable(first + second, registry) == match first_instantiable(first, registry) {
            Some(name) => Some(name),
            None => first_instantiable(second, registry),
        },
    decreases first.len(),
{
    if first.len() == 0 {
        assert(first + second =~= second);
    } else {
        assert((first + second)[0] == first[0]);
        assert((first + second).drop_first() =~= first.drop_first() + second);
        lemma_first_instantiable_concat(first.drop_first(), second, registry);
    }
}

/// What negotiation returns is the first usable candidate: a chosen name
/// stands at some position of the list, the registry can instantiate it, and
/// it can instantiate none of the candidates before it; nothing is chosen
/// exactly when the registry can instantiate no candidate.
pub proof fn lemma_first_instantiable_is_first(
    candidates: Seq<Seq<char>>,
    registry: Set<Seq<char>>,
)
    ensures
        match first_instantiable(candidates, registry) {
            Some(name) => exists|i: int|
                0 <= i < candidates.len() && #[trigger] candidates[i] == name && registry.contains(
                    name,
                ) && forall|j: int| 0 <= j < i ==> !registry.contains(#[trigger] candidates[j]),
            None => forall|j: int|
                0 <= j < candidates.len() ==> !registry.contains(#[trigger] candidates[j]),
        },
    decreases candidates.len(),
{
    if candidates.len() == 0 {
    } else if registry.contains(candidates[0]) {
        assert(candidates[0] == candidates[0]);
    } else {
        let rest = candidates.drop_first();
        lemma_first_instantiable_is_first(rest, registry);
        match first_instantiable(rest, registry) {
            Some(name) => {
                let i = choose|i: int|
                    0 <= i < rest.len() && #[trigger] rest[i] == name && registry.contains(name)
                        && forall|j: int| 0 <= j < i ==> !registry.contains(#[trigger] rest[j]);
                assert(candidates[i + 1] == name);
                assert forall|j: int| 0 <= j < i + 1 implies !registry.contains(
                    #[trigger] candidates[j],
                ) by {
                    if j > 0 {
                        assert(candidates[j] == rest[j - 1]);
                    }
                }
            },
            None => {
                assert forall|j: int| 0 <= j < candidates.len() implies !registry.contains(
                    #[trigger] candidates[j],
                ) by {
                    if j > 0 {
                        assert(candidates[j] == rest[j - 1]);
                    }
                }
            },
        }
    }
}

/// Negotiation is deterministic: two registries that agree on every
/// candidate yield the same choice.
pub proof fn lemma_negotiation_deterministic(
    candidates: Seq<Seq<char>>,
    a: Set<Seq<char>>,
    b: Set<Seq<char>>,
)
    requires
        forall|i: int|
            0 <= i < candidates.len() ==> a.contains(#[trigger] candidates[i]) == b.contains(
                candidates[i],
            ),
    ensures
        first_instantiable(candidates, a) == first_instantiable(candidates, b),
    decreases candidates.len(),
{
    if candidates.len() > 0 {
        assert(a.contains(candidates[0]) == b.contains(candidates[0]));
        let rest = candidates.drop_first();
        assert forall|i: int| 0 <= i < rest.len() implies a.contains(#[trigger] rest[i])
            == b.contains(rest[i]) by {
            assert(rest[i] == candidates[i + 1]);
        }
        lemma_negotiation_deterministic(rest, a, b);
    }
}

/// Every container has exactly one muxer, and the two differ.
pub proof fn lemma_muxer_mapping()
    ensures
        muxer_name(ContainerFormat::Mp4) == "mp4mux"@,
        muxer_name(ContainerFormat::Mkv) == "matroskamux"@,
        forall|c: ContainerFormat| #[trigger] muxer_name(c).len() > 0,
        muxer_name(ContainerFormat::Mp4) != muxer_name(ContainerFormat::Mkv),
{
    reveal_strlit("mp4mux");
    reveal_strlit("matroskamux");
    assert forall|c: ContainerFormat| #[trigger] muxer_name(c).len() > 0 by {
        match c {
            ContainerFormat::Mp4 => {},
            ContainerFormat::Mkv => {},
        }
    }
}

/// The first of `candidates` that `registry` can instantiate.
pub fn first_available(candidates: &[&'static str], registry: &CodecRegistry) -> (choice: Option<
    &'static str,
>)
    ensures
        name_of(choice) == first_instantiable(names_of(candidates@), registry@),
{
    let ghost names = names_of(candidates@);
    let mut i: usize = 0;
    assert(names.skip(0) =~= names);
    while i < candidates.len()
        invariant
            i <= candidates@.len(),
            names == names_of(candidates@),
            first_instantiable(names, registry@) == first_instantiable(
                names.skip(i as int),
                registry@,
            ),
        decreases candidates@.len() - i,
    {
        let candidate: &'static str = candidates[i];
        assert(names[i as int] == candidate@);
        if registry.can_instantiate(candidate) {
            assert(names.skip(i as int)[0] == candidate@);
            return Some(candidate);
        }
        proof {
            lemma_skip_unusable(names, registry@, i as int);
        }
        i += 1;
    }
    assert(names.skip(i as int).len() == 0);
    None
}

/// The best available H.264 encoder: the first of [`H264_ENCODERS`] that the
/// registry can instantiate, or nothing when it can instantiate none.
pub fn detect_available_encoder(registry: &CodecRegistry) -> (choice: Option<&'static str>)
    ensures
        name_of(choice) == first_instantiable(h264_candidates(), registry@),
{
    let candidates = H264_ENCODERS;
    assert(names_of(candidates@) =~= h264_candidates());
    first_available(&candidates, registry)
}

/// The muxer element for a container format.
pub fn get_muxer_for_container(container: ContainerFormat) -> (muxer: &'static str)
    ensures
        muxer@ == muxer_name(container),
{
    match container {
        ContainerFormat::Mp4 => "mp4mux",
        ContainerFormat::Mkv => "matroskamux",
    }
}

/// The best available audio encoder for a container: the first of its
/// candidates that the registry can instantiate. MP4 prefers an AAC encoder
/// and MKV an Opus encoder; where the registry offers none of the preferred
/// family, the family of the other container is tried before giving up.
pub fn detect_available_audio_encoder(
    container: ContainerFormat,
    registry: &CodecRegistry,
) -> (choice: Option<&'static str>)
    ensures
        name_of(choice) == first_instantiable(audio_candidates(container), registry@),
{
    let aac = AAC_ENCODERS;
    let opus = OPUS_ENCODERS;
    assert(names_of(aac@) =~= aac_candidates());
    assert(names_of(opus@) =~= opus_candidates());
    match container {
        ContainerFormat::Mp4 => {
            proof {
                lemma_first_instantiable_concat(aac_candidates(), opus_candidates(), registry@);
            }
            match first_available(&aac, registry) {
                Some(encoder) => Some(encoder),
                None => first_available(&opus, registry),
            }
        },
        ContainerFormat::Mkv => {
            proof {
                lemma_first_instantiable_concat(opus_candidates(), aac_candidates(), registry@);
            }
            match first_available(&opus, registry) {
                Some(encoder) => Some(encoder),
                None => first_available(&aac, registry),
            }
        },
    }
}

/// The device name of the system audio monitor source: the monitor of the
/// default output device.
pub fn get_system_audio_source() -> (device: &'static str)
    ensures
        device@ == "@DEFAULT_MONITOR@"@,
{
    "@DEFAULT_MONITOR@"
}

} // verus!
