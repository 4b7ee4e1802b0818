//! The vocabulary model: gestures, their identifiers and examples, and the
//! configuration a vocabulary file carries.
//!
//! What the library does not interpret is left to type parameters: `E` is an
//! example, `S` the distance statistics of a gesture, `M` a gesture's numeric
//! settings (threshold, coefficients, creation time) and `X` the vocabulary's
//! own metadata (identifier, timestamps and the like).

use vstd::prelude::*;

use crate::text::same_text;
use vstd::string::StringExecFns;

use crate::engine::augmentation::AugmentationConfig;
use crate::engine::preprocess::PreprocessingConfig;

verus! {

/// File format version written by this library (SchemaVer: MODEL.REVISION.ADDITION).
pub const CURRENT_VERSION: &'static str = "1.2";

/// Configuration for OSC input (receiving skeleton data)
#[derive(Debug, Clone, PartialEq, Eq)]
pub struct InputConfig {
    /// Number of values per input frame (e.g., 66 for 33 MediaPipe keypoints × XY)
    pub dimensions: usize,
    /// UDP port to listen on
    pub port: u16,
    /// OSC address to listen for
    pub address: String,
}

impl Default for InputConfig {
    /// 66 values, port 6448, address `/wek/inputs`.
    fn default() -> (r: Self)
        ensures
            r.dimensions == 66,
            r.port == 6448,
            r.address@ == "/wek/inputs"@,
    {
        InputConfig { dimensions: 66, port: 6448, address: "/wek/inputs".to_owned() }
    }
}

/// Configuration for OSC output (sending hit messages)
#[derive(Debug, Clone, PartialEq, Eq)]
pub struct OutputConfig {
    /// Target hostname/IP
    pub host: String,
    /// Target UDP port
    pub port: u16,
}

impl Default for OutputConfig {
    /// Host 127.0.0.1, port 12000.
    fn default() -> (r: Self)
        ensures
            r.host@ == "127.0.0.1"@,
            r.port == 12000,
    {
        OutputConfig { host: "127.0.0.1".to_owned(), port: 12000 }
    }
}

/// Tracking system assumed when a file does not name one.
pub fn default_tracking_system() -> (r: String)
    ensures
        r@ == "mediapipe-pose-33-xy"@,
{
    "mediapipe-pose-33-xy".to_owned()
}

/// Coordinate system assumed when a file does not name one.
pub fn default_coordinate_system() -> (r: String)
    ensures
        r@ == "normalized-0-1-xy"@,
{
    "normalized-0-1-xy".to_owned()
}

/// Tags assumed when a file lists none: none.
pub fn default_tags() -> (r: Vec<String>)
    ensures
        r@.len() == 0,
{
    Vec::new()
}

/// The character of a decimal digit.
pub open spec fn digit_char(d: nat) -> char {
    (('0' as nat) + d) as char
}

/// The decimal notation of `n`, without leading zeros.
pub open spec fn decimal(n: nat) -> Seq<char>
    decreases n,
{
    if n < 10 {
        seq![digit_char(n)]
    } else {
        decimal(n / 10).push(digit_char(n % 10))
    }
}

/// The text of one decimal digit.
fn digit_text(d: u64) -> (r: &'static str)
    requires
        d < 10,
    ensures
        r@ == seq![digit_char(d as nat)],
{
    proof {
        reveal_strlit("0");
        reveal_strlit("1");
        reveal_strlit("2");
        reveal_strlit("3");
        reveal_strlit("4");
        reveal_strlit("5");
        reveal_strlit("6");
        reveal_strlit("7");
        reveal_strlit("8");
        reveal_strlit("9");
    }
    let r = match d {
        0 => "0",
        1 => "1",
        2 => "2",
        3 => "3",
        4 => "4",
        5 => "5",
        6 => "6",
        7 => "7",
        8 => "8",
        _ => "9",
    };
    assert(r@ =~= seq![digit_char(d as nat)]);
    r
}

/// Append the decimal notation of `n` to `out`.
fn write_decimal(out: &mut String, n: u64)
    ensures
        final(out)@ == old(out)@ + decimal(n as nat),
    decreases n,
{
    if n >= 10 {
        write_decimal(out, n / 10);
    }
    let ghost before = out@;
    out.append(digit_text(n % 10));
    proof {
        if n >= 10 {
            assert(out@ =~= old(out)@ + decimal((n / 10) as nat).push(digit_char((n % 10) as nat)));
        } else {
            assert(out@ =~= old(out)@ + decimal(n as nat));
        }
    }
}

/// The OSC address hits of gesture `id` are sent to: `/gesture/<id>`.
pub fn gesture_address(id: u32) -> (r: String)
    ensures
        r@ == "/gesture/"@ + decimal(id as nat),
{
    let mut text = "/gesture/".to_owned();
    write_decimal(&mut text, id as u64);
    text
}

/// The name a gesture gets when added to a vocabulary holding `count` gestures:
/// `gesture<count + 1>`.
pub fn default_gesture_name(count: usize) -> (r: String)
    requires
        count < usize::MAX,
    ensures
        r@ == "gesture"@ + decimal(count as nat + 1),
{
    let mut text = "gesture".to_owned();
    write_decimal(&mut text, (count + 1) as u64);
    text
}

/// A single trained movement pattern (e.g., "jack", "wave", "spin").
#[derive(Debug)]
pub struct Gesture<E, S, M> {
    /// Unique identifier within the vocabulary (1, 2, 3...)
    pub id: u32,
    /// User-editable gesture name
    pub name: String,
    /// OSC address for hit output (e.g., "/gesture/1")
    pub osc_address: String,
    /// Recorded examples of this gesture
    pub examples: Vec<E>,
    /// Distance statistics of the examples (computed after training)
    pub statistics: Option<S>,
    /// If true, the threshold is set by hand; if false, it follows the statistics
    pub threshold_manual_override: bool,
    /// Whether a hit also needs enough examples to agree
    pub consensus_enabled: bool,
    /// Threshold, coefficients and creation time
    pub settings: M,
}

impl<E, S, M> Gesture<E, S, M> {
    /// A new gesture with no example and no statistics, automatic threshold,
    /// consensus off, sending to `/gesture/<id>`.
    pub fn new(id: u32, name: &str, settings: M) -> (g: Self)
        ensures
            g.id == id,
            g.name@ == name@,
            g.osc_address@ == "/gesture/"@ + decimal(id as nat),
            g.examples@.len() == 0,
            g.statistics is None,
            !g.threshold_manual_override,
            !g.consensus_enabled,
            g.settings == settings,
    {
        Gesture {
            id,
            name: name.to_owned(),
            osc_address: gesture_address(id),
            examples: Vec::new(),
            statistics: None,
            threshold_manual_override: false,
            consensus_enabled: false,
            settings,
        }
    }

    /// Add a recorded example to this gesture.
    pub fn add_example(&mut self, example: E)
        ensures
            final(self).examples@ == old(self).examples@.push(example),
            final(self).id == old(self).id,
            final(self).name == old(self).name,
            final(self).osc_address == old(self).osc_address,
            final(self).statistics == old(self).statistics,
            final(self).threshold_manual_override == old(self).threshold_manual_override,
            final(self).consensus_enabled == old(self).consensus_enabled,
            final(self).settings == old(self).settings,
    {
        self.examples.push(example);
    }

    /// Remove the example at `index` and return it. Fewer than two examples
    /// leave nothing to compare, so the statistics are dropped then. An index
    /// past the end is an error and changes nothing.
    pub fn remove_example(&mut self, index: usize) -> (r: Result<E, String>)
        ensures
            index >= old(self).examples@.len() ==> {
                &&& r matches Err(msg) && msg@ == "example index out of bounds"@
                &&& *final(self) == *old(self)
            },
            index < old(self).examples@.len() ==> {
                &&& r == Ok::<E, String>(old(self).examples@[index as int])
                &&& final(self).examples@ == old(self).examples@.remove(index as int)
                &&& final(self).statistics == (if final(self).examples@.len() < 2 {
                    None
                } else {
                    old(self).statistics
                })
                &&& final(self).id == old(self).id
                &&& final(self).name == old(self).name
                &&& final(self).osc_address == old(self).osc_address
                &&& final(self).threshold_manual_override == old(self).threshold_manual_override
                &&& final(self).consensus_enabled == old(self).consensus_enabled
                &&& final(self).settings == old(self).settings
            },
    {
        if index >= self.examples.len() {
            return Err("example index out of bounds".to_owned());
        }
        let removed = self.examples.remove(index);
        if self.examples.len() < 2 {
            self.statistics = None;
        }
        Ok(removed)
    }

    /// Store freshly computed statistics.
    pub fn set_statistics(&mut self, statistics: S)
        ensures
            final(self).statistics == Some(statistics),
            final(self).id == old(self).id,
            final(self).name == old(self).name,
            final(self).osc_address == old(self).osc_address,
            final(self).examples == old(self).examples,
            final(self).threshold_manual_override == old(self).threshold_manual_override,
            final(self).consensus_enabled == old(self).consensus_enabled,
            final(self).settings == old(self).settings,
    {
        self.statistics = Some(statistics);
    }

    /// Forget the statistics (e.g., when examples are removed).
    pub fn clear_statistics(&mut self)
        ensures
            final(self).statistics is None,
            final(self).id == old(self).id,
            final(self).name == old(self).name,
            final(self).osc_address == old(self).osc_address,
            final(self).examples == old(self).examples,
            final(self).threshold_manual_override == old(self).threshold_manual_override,
            final(self).consensus_enabled == old(self).consensus_enabled,
            final(self).settings == old(self).settings,
    {
        self.statistics = None;
    }

    /// Whether statistics are known.
    pub fn has_statistics(&self) -> (r: bool)
        ensures
            r == self.statistics is Some,
    {
        self.statistics.is_some()
    }

    /// Whether the gesture has at least one example.
    pub fn has_examples(&self) -> (r: bool)
        ensures
            r == (self.examples@.len() > 0),
    {
        self.examples.len() > 0
    }

    /// The number of recorded examples.
    pub fn example_count(&self) -> (r: usize)
        ensures
            r == self.examples@.len(),
    {
        self.examples.len()
    }
}

/// Every gesture's identifier is below `next`.
pub open spec fn ids_below<E, S, M>(gestures: Seq<Gesture<E, S, M>>, next: nat) -> bool {
    forall|i: int| 0 <= i < gestures.len() ==> (#[trigger] gestures[i]).id < next
}

/// Some gesture has identifier `id`.
pub open spec fn has_id<E, S, M>(gestures: Seq<Gesture<E, S, M>>, id: u32) -> bool {
    exists|i: int| 0 <= i < gestures.len() && (#[trigger] gestures[i]).id == id
}

/// No two gestures share an identifier.
pub open spec fn ids_unique<E, S, M>(gestures: Seq<Gesture<E, S, M>>) -> bool {
    forall|i: int, j: int|
        #![trigger gestures[i], gestures[j]]
        0 <= i < gestures.len() && 0 <= j < gestures.len() && i != j ==> gestures[i].id
            != gestures[j].id
}

/// Keeping some of a collection of gestures with distinct identifiers keeps them distinct.
proof fn lemma_filter_keeps_ids_unique<E, S, M>(
    gestures: Seq<Gesture<E, S, M>>,
    keep: spec_fn(Gesture<E, S, M>) -> bool,
)
    requires
        ids_unique(gestures),
    ensures
        ids_unique(gestures.filter(keep)),
    decreases gestures.len(),
{
    reveal(Seq::filter);
    if gestures.len() > 0 {
        let init = gestures.drop_last();
        let last = gestures.last();
        assert(ids_unique(init)) by {
            assert forall|i: int, j: int|
                0 <= i < init.len() && 0 <= j < init.len() && i != j implies #[trigger] init[i].id
                != #[trigger] init[j].id by {
                assert(init[i] == gestures[i] && init[j] == gestures[j]);
            }
        }
        lemma_filter_keeps_ids_unique(init, keep);
        let kept = init.filter(keep);
        if keep(last) {
            assert forall|k: int| 0 <= k < kept.len() implies #[trigger] kept[k].id != last.id by {
                assert(kept.contains(kept[k]));
                init.lemma_filter_contains_rev(keep, kept[k]);
                let j = choose|j: int| 0 <= j < init.len() && init[j] == kept[k];
                assert(gestures[j] == init[j]);
                assert(gestures[gestures.len() - 1] == last);
            }
            let out = kept.push(last);
            assert(gestures.filter(keep) == out);
            assert forall|i: int, j: int|
                0 <= i < out.len() && 0 <= j < out.len() && i != j implies #[trigger] out[i].id
                != #[trigger] out[j].id by {
                if i < kept.len() && j < kept.len() {
                    assert(out[i] == kept[i] && out[j] == kept[j]);
                } else if i < kept.len() {
                    assert(out[i] == kept[i]);
                } else {
                    assert(out[j] == kept[j]);
                }
            }
        } else {
            assert(gestures.filter(keep) == kept);
        }
    }
}

/// `i` is the position of the first gesture with identifier `id`.
pub open spec fn first_with_id<E, S, M>(gestures: Seq<Gesture<E, S, M>>, id: u32, i: int) -> bool {
    &&& 0 <= i < gestures.len()
    &&& gestures[i].id == id
    &&& forall|j: int| 0 <= j < i ==> (#[trigger] gestures[j]).id != id
}

/// Keeps the gestures whose identifier is not `id`.
pub open spec fn other_than<E, S, M>(id: u32) -> spec_fn(Gesture<E, S, M>) -> bool {
    |g: Gesture<E, S, M>| g.id != id
}

/// The largest identifier among `gestures` (zero when there is none).
pub open spec fn max_id<E, S, M>(gestures: Seq<Gesture<E, S, M>>) -> nat
    decreases gestures.len(),
{
    if gestures.len() == 0 {
        0
    } else {
        let rest = max_id(gestures.drop_last());
        if gestures.last().id > rest {
            gestures.last().id as nat
        } else {
            rest
        }
    }
}

/// The largest identifier bounds every identifier, and is one of them when there
/// is any gesture.
pub proof fn max_id_bounds_every_id<E, S, M>(gestures: Seq<Gesture<E, S, M>>)
    ensures
        forall|i: int| 0 <= i < gestures.len() ==> (#[trigger] gestures[i]).id <= max_id(gestures),
        gestures.len() > 0 ==> has_id(gestures, max_id(gestures) as u32),
    decreases gestures.len(),
{
    if gestures.len() > 0 {
        let rest = gestures.drop_last();
        max_id_bounds_every_id(rest);
        assert forall|i: int| 0 <= i < gestures.len() implies (#[trigger] gestures[i]).id <= max_id(
            gestures,
        ) by {
            if i < gestures.len() - 1 {
                assert(gestures[i] == rest[i]);
            }
        }
        if gestures.last().id > max_id(rest) {
            assert(gestures[gestures.len() - 1].id == max_id(gestures));
        } else if rest.len() > 0 {
            let k = choose|k: int| 0 <= k < rest.len() && (#[trigger] rest[k]).id == max_id(rest) as u32;
            assert(gestures[k] == rest[k]);
        } else {
            assert(gestures[0].id == 0);
        }
    }
}

/// After an identifier count is rebuilt from the gestures present (as after
/// loading a file), the next identifier handed out is new: larger than every
/// identifier in use.
pub proof fn ids_continue_after_reload<E, S, M>(gestures: Seq<Gesture<E, S, M>>)
    ensures
        ids_below(gestures, max_id(gestures) + 1),
        !has_id(gestures, (max_id(gestures) + 1) as u32) || max_id(gestures) + 1 > u32::MAX,
{
    max_id_bounds_every_id(gestures);
}

/// A collection of gestures that work together (e.g., "House Foundations").
/// This is the root container: one vocabulary is one .ralf file.
#[derive(Debug)]
pub struct Vocabulary<E, S, M, X> {
    /// File format version
    pub version: String,
    /// User-editable vocabulary name
    pub name: String,
    /// OSC input configuration
    pub input: InputConfig,
    /// OSC output configuration
    pub output: OutputConfig,
    /// Tracking system identifier (e.g., "mediapipe-pose-33-xy", "kinect-v2-25")
    pub tracking_system: String,
    /// Coordinate system description (e.g., "normalized-0-1-xy", "meters-xyz")
    pub coordinate_system: String,
    /// License for the data (e.g., "CC-BY-4.0")
    pub license: Option<String>,
    /// Creator/attribution
    pub creator: Option<String>,
    /// Tags for discoverability (e.g., ["house", "dance", "foundations"])
    pub tags: Vec<String>,
    /// Preprocessing applied before matching
    pub preprocessing: PreprocessingConfig,
    /// Augmentation of the training examples
    pub augmentation: AugmentationConfig,
    /// Whether joints are weighted by their variance across examples
    pub joint_weighting: bool,
    /// List of gestures in this vocabulary
    pub gestures: Vec<Gesture<E, S, M>>,
    /// Identifier, timestamps and other metadata the library does not interpret
    pub metadata: X,
    /// Identifier the next added gesture gets (not stored in files)
    pub next_gesture_id: u32,
}

impl<E, S, M, X> Vocabulary<E, S, M, X> {
    /// Every gesture's identifier is below the next one to hand out.
    pub open spec fn ids_valid(&self) -> bool {
        ids_below(self.gestures@, self.next_gesture_id as nat)
    }

    /// A new empty vocabulary with the given name and default configuration.
    pub fn new(name: &str, metadata: X) -> (v: Self)
        ensures
            v.version@ == CURRENT_VERSION@,
            v.name@ == name@,
            v.input.dimensions == 66 && v.input.port == 6448 && v.input.address@ == "/wek/inputs"@,
            v.output.host@ == "127.0.0.1"@ && v.output.port == 12000,
            v.tracking_system@ == "mediapipe-pose-33-xy"@,
            v.coordinate_system@ == "normalized-0-1-xy"@,
            v.license is None,
            v.creator is None,
            v.tags@.len() == 0,
            v.preprocessing == (PreprocessingConfig {
                hip_normalize: true,
                scale_normalize: true,
                velocity_features: false,
                angle_features: false,
            }),
            v.augmentation == (AugmentationConfig {
                enabled: false,
                multiplier: 2,
                temporal_stretch: true,
                spatial_jitter: true,
                horizontal_mirror: true,
            }),
            !v.joint_weighting,
            v.gestures@.len() == 0,
            v.metadata == metadata,
            v.next_gesture_id == 1,
            v.ids_valid(),
    {
        Vocabulary {
            version: CURRENT_VERSION.to_owned(),
            name: name.to_owned(),
            input: InputConfig::default(),
            output: OutputConfig::default(),
            tracking_system: default_tracking_system(),
            coordinate_system: default_coordinate_system(),
            license: None,
            creator: None,
            tags: default_tags(),
            preprocessing: PreprocessingConfig::default(),
            augmentation: AugmentationConfig::default(),
            joint_weighting: false,
            gestures: Vec::new(),
            metadata,
            next_gesture_id: 1,
        }
    }

    /// Add a new gesture with the given name and settings; returns its
    /// identifier, which no gesture of the vocabulary had.
    pub fn add_gesture(&mut self, name: &str, settings: M) -> (id: u32)
        requires
            old(self).next_gesture_id < u32::MAX,
        ensures
            id == old(self).next_gesture_id,
            final(self).next_gesture_id == id + 1,
            old(self).ids_valid() ==> {
                &&& !has_id(old(self).gestures@, id)
                &&& final(self).ids_valid()
                &&& first_with_id(final(self).gestures@, id, old(self).gestures@.len() as int)
                &&& ids_unique(old(self).gestures@) ==> ids_unique(final(self).gestures@)
            },
            final(self).gestures@.len() == old(self).gestures@.len() + 1,
            final(self).gestures@.drop_last() == old(self).gestures@,
            ({
                let g = final(self).gestures@.last();
                &&& g.id == id
                &&& g.name@ == name@
                &&& g.osc_address@ == "/gesture/"@ + decimal(id as nat)
                &&& g.examples@.len() == 0
                &&& g.statistics is None
                &&& !g.threshold_manual_override
                &&& !g.consensus_enabled
                &&& g.settings == settings
            }),
            final(self).name == old(self).name,
            final(self).version == old(self).version,
            final(self).metadata == old(self).metadata,
    {
        let id = self.next_gesture_id;
        self.next_gesture_id = id + 1;
        let gesture = Gesture::new(id, name, settings);
        self.gestures.push(gesture);
        proof {
            assert(self.gestures@.drop_last() =~= old(self).gestures@);
            if old(self).ids_valid() {
                assert forall|j: int| 0 <= j < old(self).gestures@.len() implies (#[trigger] self.gestures@[j]).id
                    != id by {
                    assert(self.gestures@[j] == old(self).gestures@[j]);
                }
            }
            if old(self).ids_valid() && ids_unique(old(self).gestures@) {
                let gs = self.gestures@;
                let n = old(self).gestures@.len();
                assert forall|i: int, j: int|
                    0 <= i < gs.len() && 0 <= j < gs.len() && i != j implies #[trigger] gs[i].id
                    != #[trigger] gs[j].id by {
                    if i < n && j < n {
                        assert(gs[i] == old(self).gestures@[i] && gs[j] == old(self).gestures@[j]);
                    } else if i < n {
                        assert(gs[i] == old(self).gestures@[i]);
                    } else {
                        assert(gs[j] == old(self).gestures@[j]);
                    }
                }
            }
        }
        id
    }

    /// The position of the first gesture with identifier `id`.
    pub fn position_of(&self, id: u32) -> (r: Option<usize>)
        ensures
            match r {
                Some(i) => first_with_id(self.gestures@, id, i as int),
                None => !has_id(self.gestures@, id),
            },
    {
        let n = self.gestures.len();
        let mut i: usize = 0;
        while i < n
            invariant
                n == self.gestures@.len(),
                i <= n,
                forall|j: int| 0 <= j < i ==> (#[trigger] self.gestures@[j]).id != id,
            decreases n - i,
        {
            if self.gestures[i].id == id {
                return Some(i);
            }
            i = i + 1;
        }
        None
    }

    /// Find a gesture by identifier (the first, should several share one).
    pub fn get_gesture(&self, id: u32) -> (r: Option<&Gesture<E, S, M>>)
        ensures
            match r {
                Some(g) => exists|i: int|
                    first_with_id(self.gestures@, id, i) && *g == self.gestures@[i],
                None => !has_id(self.gestures@, id),
            },
    {
        match self.position_of(id) {
            Some(i) => Some(&self.gestures[i]),
            None => None,
        }
    }

    /// Find a gesture by identifier, for changing it.
    pub fn get_gesture_mut(&mut self, id: u32) -> (r: Option<&mut Gesture<E, S, M>>)
        ensures
            match r {
                Some(g) => exists|i: int|
                    {
                        &&& first_with_id(old(self).gestures@, id, i)
                        &&& *g == old(self).gestures@[i]
                        &&& final(self).gestures@ == old(self).gestures@.update(i, *final(g))
                    },
                None => !has_id(old(self).gestures@, id) && *final(self) == *old(self),
            },
            final(self).next_gesture_id == old(self).next_gesture_id,
            final(self).name == old(self).name,
            final(self).version == old(self).version,
            final(self).metadata == old(self).metadata,
    {
        match self.position_of(id) {
            Some(i) => Some(&mut self.gestures[i]),
            None => None,
        }
    }

    /// Remove every gesture with identifier `id`; true when one was removed.
    pub fn remove_gesture(&mut self, id: u32) -> (removed: bool)
        ensures
            removed == has_id(old(self).gestures@, id),
            final(self).gestures@ == old(self).gestures@.filter(other_than::<E, S, M>(id)),
            !has_id(final(self).gestures@, id),
            old(self).ids_valid() ==> final(self).ids_valid(),
            ids_unique(old(self).gestures@) ==> ids_unique(final(self).gestures@),
            final(self).next_gesture_id == old(self).next_gesture_id,
            final(self).name == old(self).name,
            final(self).version == old(self).version,
            final(self).metadata == old(self).metadata,
    {
        let ghost all = self.gestures@;
        let ghost keep = other_than::<E, S, M>(id);
        let mut rest: Vec<Gesture<E, S, M>> = Vec::new();
        std::mem::swap(&mut rest, &mut self.gestures);
        let mut kept: Vec<Gesture<E, S, M>> = Vec::new();
        let mut found = false;
        proof {
            reveal(Seq::filter);
            assert(all.subrange(0, 0).filter(keep) =~= Seq::<Gesture<E, S, M>>::empty());
        }
        while rest.len() > 0
            invariant
                all == old(self).gestures@,
                keep == other_than::<E, S, M>(id),
                rest@.len() <= all.len(),
                rest@ =~= all.subrange(all.len() - rest@.len(), all.len() as int),
                kept@ == all.subrange(0, all.len() - rest@.len()).filter(keep),
                found == has_id(all.subrange(0, all.len() - rest@.len()), id),
                forall|k: int| 0 <= k < kept@.len() ==> (#[trigger] kept@[k]).id != id,
                ids_below(all, self.next_gesture_id as nat) ==> ids_below(kept@, self.next_gesture_id as nat),
                self.next_gesture_id == old(self).next_gesture_id,
                self.name == old(self).name,
                self.version == old(self).version,
                self.metadata == old(self).metadata,
            decreases rest@.len(),
        {
            let ghost done = all.subrange(0, all.len() - rest@.len());
            let g = rest.remove(0);
            let ghost next = all.subrange(0, all.len() - rest@.len());
            proof {
                assert(next.drop_last() =~= done);
                assert(next.last() == g);
                reveal(Seq::filter);
                assert(next.filter(keep) == (if g.id != id {
                    done.filter(keep).push(g)
                } else {
                    done.filter(keep)
                }));
                if has_id(next, id) {
                    if g.id != id {
                        let k = choose|k: int| 0 <= k < next.len() && (#[trigger] next[k]).id == id;
                        assert(done[k] == next[k]);
                    }
                }
                if has_id(done, id) {
                    let k = choose|k: int| 0 <= k < done.len() && (#[trigger] done[k]).id == id;
                    assert(next[k] == done[k]);
                }
                if g.id == id {
                    assert(next[next.len() - 1].id == id);
                }
            }
            if g.id == id {
                found = true;
            } else {
                kept.push(g);
            }
        }
        proof {
            assert(all.subrange(0, all.len() as int) =~= all);
            if ids_unique(all) {
                lemma_filter_keeps_ids_unique(all, keep);
            }
        }
        self.gestures = kept;
        found
    }

    /// The largest identifier in use (zero when there is no gesture).
    pub fn max_gesture_id(&self) -> (r: u32)
        ensures
            r == max_id(self.gestures@),
    {
        let n = self.gestures.len();
        let mut best: u32 = 0;
        let mut i: usize = 0;
        while i < n
            invariant
                n == self.gestures@.len(),
                i <= n,
                best == max_id(self.gestures@.subrange(0, i as int)),
            decreases n - i,
        {
            proof {
                let s = self.gestures@.subrange(0, i as int + 1);
                assert(s.drop_last() =~= self.gestures@.subrange(0, i as int));
            }
            if self.gestures[i].id > best {
                best = self.gestures[i].id;
            }
            i = i + 1;
        }
        proof {
            assert(self.gestures@.subrange(0, n as int) =~= self.gestures@);
        }
        best
    }

    /// Rebuild the identifier count after loading a file, where it is not
    /// stored: one past the largest identifier in use.
    pub fn recalculate_next_id(&mut self)
        requires
            max_id(old(self).gestures@) < u32::MAX,
        ensures
            final(self).next_gesture_id == max_id(old(self).gestures@) + 1,
            final(self).ids_valid(),
            final(self).gestures == old(self).gestures,
            final(self).name == old(self).name,
            final(self).version == old(self).version,
            final(self).metadata == old(self).metadata,
    {
        let m = self.max_gesture_id();
        self.next_gesture_id = m + 1;
        proof {
            max_id_bounds_every_id(self.gestures@);
        }
    }
}

/// How a file of a given format version is read.
#[derive(Debug, Clone, Copy, PartialEq, Eq, Structural)]
pub enum VersionPlan {
    /// Version 1.0: read, then given a fresh identifier and the current version
    Migrate,
    /// A version this library knows: read as it is
    Known,
    /// Any other version: read anyway, with a warning
    Unknown,
}

/// The plan for a file whose `version` field reads `version`.
pub fn plan_for_version(version: &str) -> (r: VersionPlan)
    ensures
        version@ == "1.0"@ ==> r == VersionPlan::Migrate,
        (version@ == "1.1"@ || version@ == CURRENT_VERSION@) ==> r == VersionPlan::Known,
        (version@ != "1.0"@ && version@ != "1.1"@ && version@ != CURRENT_VERSION@) ==> r
            == VersionPlan::Unknown,
{
    proof {
        reveal_strlit("1.0");
        reveal_strlit("1.1");
        reveal_strlit("1.2");
        assert(CURRENT_VERSION@ == "1.2"@);
        assert("1.1"@[2] != "1.0"@[2] && "1.2"@[2] != "1.0"@[2]);
    }
    if same_text(version, "1.0") {
        VersionPlan::Migrate
    } else if same_text(version, "1.1") || same_text(version, CURRENT_VERSION) {
        VersionPlan::Known
    } else {
        VersionPlan::Unknown
    }
}

} // verus!
