//! Generic layer infrastructure: the property channel, per-layer version
//! counters, size-keyed caches, and the pipeline that orders the layers.
//!
//! Each layer owns an optional configuration, an enabled flag, a version
//! counter that increases (wrapping) on every observable state change, and a
//! cache of rendered images keyed by size and tagged with the upstream
//! dependency version that was current when the entry was stored.

use vstd::prelude::*;
use vstd::slice::slice_index_get;

use crate::decal::DecalConfig;
use crate::hue_rotation::HueRotationConfig;
use crate::icon::{IconImage, IconView};
use crate::overlay::SvgOverlayConfig;

verus! {

// ============================================================================
// Property channel
// ============================================================================

/// The dominant color sampled from an image: the alpha-weighted average over
/// its content bounds.
///
/// Emitted by layers that change the image appearance (hue rotation) and
/// consumed by layers that derive colors from the image (decal).
#[derive(Clone, Copy, PartialEq, Eq, Structural, Debug)]
pub struct DominantColor {
    pub r: u8,
    pub g: u8,
    pub b: u8,
    pub a: u8,
}

impl DominantColor {
    pub fn new(r: u8, g: u8, b: u8, a: u8) -> (c: DominantColor)
        ensures
            c == (DominantColor { r, g, b, a }),
    {
        DominantColor { r, g, b, a }
    }

    pub fn as_tuple(&self) -> (t: (u8, u8, u8, u8))
        ensures
            t == (self.r, self.g, self.b, self.a),
    {
        (self.r, self.g, self.b, self.a)
    }
}

/// Mathematical view of the render context: the current image plus the
/// per-render property slots (today just the dominant color).
pub ghost struct ChannelView {
    pub image: IconView,
    pub dominant: Option<DominantColor>,
}

/// Context that flows through the rendering pipeline.
///
/// Layers read properties set by upstream layers and emit new properties for
/// downstream layers; the slots live only for one render pass and are never
/// cached. The known property kinds form a closed set, one optional slot
/// each.
pub struct RenderContext {
    /// The current image being processed through the pipeline.
    pub image: IconImage,
    /// The dominant-color slot, filled by upstream layers.
    dominant: Option<DominantColor>,
}

impl View for RenderContext {
    type V = ChannelView;

    closed spec fn view(&self) -> ChannelView {
        ChannelView { image: self.image@, dominant: self.dominant }
    }
}

impl RenderContext {
    /// Creates a new render context with the given base image and all
    /// property slots empty.
    pub fn new(image: IconImage) -> (r: RenderContext)
        ensures
            r@.image == image@,
            r@.dominant == Option::<DominantColor>::None,
    {
        RenderContext { image, dominant: None }
    }

    /// Stores the dominant color, overwriting any prior value in this pass.
    pub fn set(&mut self, value: DominantColor)
        ensures
            final(self)@.image == old(self)@.image,
            final(self)@.dominant == Some(value),
    {
        self.dominant = Some(value);
    }

    /// Returns the dominant color published by an upstream layer, if any.
    pub fn get(&self) -> (r: Option<DominantColor>)
        ensures
            r == self@.dominant,
    {
        self.dominant
    }

    /// Checks whether a dominant color has been published.
    pub fn has(&self) -> (r: bool)
        ensures
            r == self@.dominant.is_some(),
    {
        self.dominant.is_some()
    }

    /// The image currently carried by the context.
    pub fn image(&self) -> (r: &IconImage)
        ensures
            r@ == self@.image,
    {
        &self.image
    }

    /// Replaces the image carried by the context; the property slots are
    /// untouched.
    pub fn set_image(&mut self, image: IconImage)
        ensures
            final(self)@.image == image@,
            final(self)@.dominant == old(self)@.dominant,
    {
        self.image = image;
    }
}

// ============================================================================
// Versions and cache keys
// ============================================================================

/// Increment modulo 2^64.
pub open spec fn wrap_inc(v: u64) -> u64 {
    if v == u64::MAX {
        0
    } else {
        (v + 1) as u64
    }
}

/// Addition modulo 2^64.
pub open spec fn wrap_add_spec(a: u64, b: u64) -> u64 {
    ((a + b) % 0x1_0000_0000_0000_0000) as u64
}

/// Wrapping sum of a sequence of version numbers.
pub open spec fn wrap_sum(s: Seq<u64>) -> u64
    decreases s.len(),
{
    if s.len() == 0 {
        0
    } else {
        wrap_add_spec(wrap_sum(s.drop_last()), s.last())
    }
}

/// The combined version of upstream layer dependencies, used to detect when
/// a layer's cache is stale because an upstream layer has changed.
#[derive(Clone, Copy, PartialEq, Eq, Structural, Debug)]
pub struct DependencyVersion {
    value: u64,
}

impl DependencyVersion {
    /// The version value this dependency snapshot carries.
    pub closed spec fn spec_value(self) -> u64 {
        self.value
    }

    /// No dependencies (root layer).
    pub fn none() -> (r: DependencyVersion)
        ensures
            r.spec_value() == 0,
    {
        DependencyVersion { value: 0 }
    }

    /// Creates a dependency version from a single version number.
    pub fn from_version(version: u64) -> (r: DependencyVersion)
        ensures
            r.spec_value() == version,
    {
        DependencyVersion { value: version }
    }

    /// Creates a dependency version from a single upstream layer.
    pub fn from_layer<C: LayerConfig>(layer: &Layer<C>) -> (r: DependencyVersion)
        ensures
            r.spec_value() == layer@.version,
    {
        DependencyVersion { value: layer.version() }
    }

    /// Combines multiple upstream layer versions into one wrapping sum.
    ///
    /// The sum is not collision free: distinct version tuples can combine to
    /// the same value.
    pub fn combine(versions: &[u64]) -> (r: DependencyVersion)
        ensures
            r.spec_value() == wrap_sum(versions@),
    {
        let mut acc: u64 = 0;
        let mut i: usize = 0;
        while i < versions.len()
            invariant
                i <= versions@.len(),
                acc == wrap_sum(versions@.take(i as int)),
            decreases versions@.len() - i,
        {
            proof {
                assert(versions@.take(i + 1).drop_last() =~= versions@.take(i as int));
            }
            acc = acc.wrapping_add(*slice_index_get(versions, i));
            i = i + 1;
        }
        proof {
            assert(versions@.take(versions@.len() as int) =~= versions@);
        }
        DependencyVersion { value: acc }
    }
}

/// Snapshot of all layer versions in the pipeline, passed to each layer so
/// it can compute the versions of the upstream layers it depends on.
#[derive(Clone, Copy, PartialEq, Eq, Structural, Debug)]
pub struct LayerVersions {
    /// Version of the hue rotation layer.
    pub hue: u64,
    /// Version of the decal layer.
    pub decal: u64,
    /// Version of the overlay layer.
    pub overlay: u64,
}

/// Key for cached rendered images: pixel dimensions plus the display scale,
/// identifying one concrete rendering size.
#[derive(Clone, Copy, PartialEq, Eq, Hash, Structural, Debug)]
pub struct CacheKey {
    pub width: u32,
    pub height: u32,
    pub scale: u32,
}

/// The cache key of an image.
pub open spec fn key_of(img: IconView) -> CacheKey {
    CacheKey { width: img.raster.width as u32, height: img.raster.height as u32, scale: img.scale }
}

impl CacheKey {
    /// Creates a cache key for the given dimensions and scale (hundredths).
    pub fn new(width: u32, height: u32, scale: u32) -> (r: CacheKey)
        ensures
            r == (CacheKey { width, height, scale }),
    {
        CacheKey { width, height, scale }
    }

    /// Creates a cache key from an icon image.
    pub fn from_icon(icon: &IconImage) -> (r: CacheKey)
        ensures
            r == key_of(icon@),
    {
        CacheKey { width: icon.data.width(), height: icon.data.height(), scale: icon.scale }
    }
}

// ============================================================================
// Layer traits
// ============================================================================

/// Trait for layer configuration types.
///
/// Implementations must detect when a configuration meaningfully differs
/// from another, which drives cache invalidation.
pub trait LayerConfig: Sized {
    /// What it means for this configuration to differ observably from
    /// another.
    spec fn differs_spec(self, other: Self) -> bool;

    /// Returns true if this config differs from another in a way that would
    /// produce different rendering output.
    fn differs_from(&self, other: &Self) -> (r: bool)
        ensures
            r == self.differs_spec(*other),
    ;
}

/// Trait for layer configurations that know how to apply themselves.
///
/// Each layer declares the upstream versions it depends on, transforms the
/// image in the render context, and emits properties for downstream layers
/// in a dedicated step. Keeping `transform` (pixel mutation) apart from
/// `emit` (property publication) makes the data a stage hands to later
/// stages an explicit contract: the pixel result is cached, the emission is
/// not, so downstream layers receive a fresh value even on a cache hit.
pub trait LayerEffect: LayerConfig {
    /// The dependency version this layer derives from the pipeline versions.
    spec fn deps_spec(versions: LayerVersions) -> u64;

    /// What `transform` does to the channel.
    spec fn transform_spec(self, c: ChannelView) -> ChannelView;

    /// What `emit` does to the channel.
    spec fn emit_spec(self, c: ChannelView) -> ChannelView;

    /// Returns the dependency version for cache invalidation.
    fn dependencies(versions: &LayerVersions) -> (r: DependencyVersion)
        ensures
            r.spec_value() == Self::deps_spec(*versions),
    ;

    /// Transform the image in the render context.
    fn transform(&self, ctx: &mut RenderContext)
        ensures
            final(ctx)@ == self.transform_spec(old(ctx)@),
    ;

    /// Emit properties for downstream layers to consume.
    fn emit(&self, ctx: &mut RenderContext)
        ensures
            final(ctx)@ == self.emit_spec(old(ctx)@),
    ;
}

// ============================================================================
// Cache representation
// ============================================================================

/// One stored rendering: the size key, the image, and the dependency version
/// that was current when it was stored.
struct CacheEntry {
    key: CacheKey,
    image: IconImage,
    dep: u64,
}

/// The mapping a sequence of cache entries stands for.
spec fn cache_as_map(s: Seq<CacheEntry>) -> Map<CacheKey, (IconView, u64)>
    decreases s.len(),
{
    if s.len() == 0 {
        Map::empty()
    } else {
        cache_as_map(s.drop_last()).insert(s.last().key, (s.last().image@, s.last().dep))
    }
}

/// No two entries share a key.
spec fn unique_keys(s: Seq<CacheEntry>) -> bool {
    forall|i: int, j: int| 0 <= i < j < s.len() ==> (#[trigger] s[i]).key != (#[trigger] s[j]).key
}

/// An entry of a uniquely-keyed cache is exactly what the map holds for its
/// key.
proof fn lemma_entry_in_map(s: Seq<CacheEntry>, i: int)
    requires
        unique_keys(s),
        0 <= i < s.len(),
    ensures
        cache_as_map(s).dom().contains(s[i].key),
        cache_as_map(s)[s[i].key] == (s[i].image@, s[i].dep),
    decreases s.len(),
{
    if i == s.len() - 1 {
    } else {
        assert(unique_keys(s.drop_last()));
        lemma_entry_in_map(s.drop_last(), i);
        assert(s[i].key != s.last().key);
    }
}

/// A key that no entry carries is not in the map.
proof fn lemma_key_absent(s: Seq<CacheEntry>, key: CacheKey)
    requires
        forall|i: int| 0 <= i < s.len() ==> (#[trigger] s[i]).key != key,
    ensures
        !cache_as_map(s).dom().contains(key),
    decreases s.len(),
{
    if s.len() > 0 {
        lemma_key_absent(s.drop_last(), key);
    }
}

/// Replacing the entry that carries a key updates the map at that key.
proof fn lemma_update_entry(s: Seq<CacheEntry>, i: int, e: CacheEntry)
    requires
        unique_keys(s),
        0 <= i < s.len(),
        s[i].key == e.key,
    ensures
        cache_as_map(s.update(i, e)) == cache_as_map(s).insert(e.key, (e.image@, e.dep)),
        unique_keys(s.update(i, e)),
    decreases s.len(),
{
    let t = s.update(i, e);
    assert(unique_keys(t));
    if i == s.len() - 1 {
        assert(t.drop_last() =~= s.drop_last());
        assert(cache_as_map(t) =~= cache_as_map(s).insert(e.key, (e.image@, e.dep)));
    } else {
        assert(t.drop_last() =~= s.drop_last().update(i, e));
        assert(unique_keys(s.drop_last()));
        lemma_update_entry(s.drop_last(), i, e);
        assert(s[i].key != s.last().key);
        assert(t.last() == s.last());
        assert(cache_as_map(t) =~= cache_as_map(s).insert(e.key, (e.image@, e.dep)));
    }
}

// ============================================================================
// Generic layer
// ============================================================================

/// Mathematical view of a layer: its configuration, enabled flag, version,
/// and cache contents.
pub ghost struct LayerModel<C> {
    pub config: Option<C>,
    pub enabled: bool,
    pub version: u64,
    pub cache: Map<CacheKey, (IconView, u64)>,
}

impl<C> LayerModel<C> {
    /// A layer is active when it is enabled and has a configuration.
    pub open spec fn active(self) -> bool {
        self.enabled && self.config.is_some()
    }

    /// The cached image for a key, provided the stored dependency version
    /// matches the given one.
    pub open spec fn lookup(self, key: CacheKey, dep: u64) -> Option<IconView> {
        if self.cache.dom().contains(key) && self.cache[key].1 == dep {
            Some(self.cache[key].0)
        } else {
            None
        }
    }
}

/// Whether replacing the old configuration by the new one is an observable
/// change: none to none is no change, presence changes always are, and two
/// present configurations defer to the policy's differs predicate.
pub open spec fn set_config_changes<C: LayerConfig>(old_c: Option<C>, new_c: Option<C>) -> bool {
    match (old_c, new_c) {
        (Option::None, Option::None) => false,
        (Option::Some(o), Option::Some(n)) => o.differs_spec(n),
        _ => true,
    }
}

/// What `set_config` does to a layer: on an observable change the
/// configuration is replaced, the version increases by one (wrapping), and
/// the cache is emptied; otherwise the layer is untouched.
pub open spec fn layer_set_config_model<C: LayerConfig>(m: LayerModel<C>, c: Option<C>) -> LayerModel<C> {
    if set_config_changes(m.config, c) {
        LayerModel { config: c, enabled: m.enabled, version: wrap_inc(m.version), cache: Map::empty() }
    } else {
        m
    }
}

/// What `set_enabled` does to a layer: on an actual flip the version
/// increases by one (wrapping) and the cache is emptied; the configuration
/// is never touched.
pub open spec fn layer_set_enabled_model<C>(m: LayerModel<C>, enabled: bool) -> LayerModel<C> {
    if m.enabled != enabled {
        LayerModel { config: m.config, enabled, version: wrap_inc(m.version), cache: Map::empty() }
    } else {
        m
    }
}

/// What `invalidate` does to a layer: version increase plus empty cache.
pub open spec fn layer_invalidate_model<C>(m: LayerModel<C>) -> LayerModel<C> {
    LayerModel { config: m.config, enabled: m.enabled, version: wrap_inc(m.version), cache: Map::empty() }
}

/// What `apply` does to a layer and the channel.
///
/// An inactive layer passes the channel through untouched. An active layer
/// first computes its dependency version; on a cache hit it adopts the
/// cached image and re-runs only the emit step, and on a miss it runs
/// transform then emit and stores the resulting image under the freshly
/// computed dependency version.
pub open spec fn layer_apply_model<C: LayerEffect>(
    m: LayerModel<C>,
    c: ChannelView,
    key: CacheKey,
    versions: LayerVersions,
) -> (LayerModel<C>, ChannelView) {
    if !m.active() {
        (m, c)
    } else {
        let dep = C::deps_spec(versions);
        let cfg = m.config.unwrap();
        match m.lookup(key, dep) {
            Option::Some(iv) => (m, cfg.emit_spec(ChannelView { image: iv, dominant: c.dominant })),
            Option::None => {
                let after = cfg.emit_spec(cfg.transform_spec(c));
                (
                    LayerModel {
                        config: m.config,
                        enabled: m.enabled,
                        version: m.version,
                        cache: m.cache.insert(key, (after.image, dep)),
                    },
                    after,
                )
            },
        }
    }
}

/// A generic layer with configuration, caching, and version tracking.
///
/// The layer tracks an optional configuration, whether it is enabled (it can
/// be toggled without losing the configuration), a version number that
/// increases on every observable state change, and a cache of rendered
/// images keyed by size together with the dependency version each entry was
/// stored under.
pub struct Layer<C> {
    config: Option<C>,
    enabled: bool,
    version: u64,
    cache: Vec<CacheEntry>,
}

impl<C> View for Layer<C> {
    type V = LayerModel<C>;

    closed spec fn view(&self) -> LayerModel<C> {
        LayerModel {
            config: self.config,
            enabled: self.enabled,
            version: self.version,
            cache: cache_as_map(self.cache@),
        }
    }
}

impl<C> Layer<C> {
    #[verifier::type_invariant]
    spec fn type_wf(self) -> bool {
        unique_keys(self.cache@)
    }

    /// Returns the current configuration, if any.
    pub fn config(&self) -> (r: Option<&C>)
        ensures
            match r {
                Option::Some(c) => self@.config == Some(*c),
                Option::None => self@.config is None,
            },
    {
        self.config.as_ref()
    }

    /// Returns true if this layer is active (has config AND is enabled).
    pub fn is_active(&self) -> (r: bool)
        ensures
            r == self@.active(),
    {
        self.enabled && self.config.is_some()
    }

    /// Returns true if the layer has a configuration set.
    pub fn has_config(&self) -> (r: bool)
        ensures
            r == self@.config.is_some(),
    {
        self.config.is_some()
    }

    /// Returns whether the layer is enabled.
    pub fn is_enabled(&self) -> (r: bool)
        ensures
            r == self@.enabled,
    {
        self.enabled
    }

    /// Returns the current version number.
    pub fn version(&self) -> (r: u64)
        ensures
            r == self@.version,
    {
        self.version
    }

    /// Sets whether the layer is enabled; the configuration is untouched.
    ///
    /// Returns true if the enabled state changed; exactly then the version
    /// increases and the cache is emptied.
    pub fn set_enabled(&mut self, enabled: bool) -> (changed: bool)
        ensures
            changed == (old(self)@.enabled != enabled),
            final(self)@ == layer_set_enabled_model(old(self)@, enabled),
    {
        proof {
            use_type_invariant(&*self);
        }
        if self.enabled != enabled {
            self.enabled = enabled;
            self.version = self.version.wrapping_add(1);
            self.cache = Vec::new();
            true
        } else {
            false
        }
    }

    /// Sets the configuration. Returns true if it changed; exactly then the
    /// version increases and the cache is emptied.
    pub fn set_config(&mut self, config: Option<C>) -> (changed: bool) where C: LayerConfig
        ensures
            changed == set_config_changes(old(self)@.config, config),
            final(self)@ == layer_set_config_model(old(self)@, config),
    {
        proof {
            use_type_invariant(&*self);
        }
        let differs = match (&self.config, &config) {
            (Option::None, Option::None) => false,
            (Option::Some(old_c), Option::Some(new_c)) => old_c.differs_from(new_c),
            _ => true,
        };
        if differs {
            self.config = config;
            self.version = self.version.wrapping_add(1);
            self.cache = Vec::new();
            true
        } else {
            false
        }
    }

    /// Invalidates the cache and increments the version.
    ///
    /// Called when upstream layers change.
    pub fn invalidate(&mut self)
        ensures
            final(self)@ == layer_invalidate_model(old(self)@),
    {
        proof {
            use_type_invariant(&*self);
        }
        self.version = self.version.wrapping_add(1);
        self.cache = Vec::new();
    }

    /// Gets a cached image if one is stored for the given key under the
    /// given dependency version.
    pub fn get_cached(&self, key: CacheKey, deps: DependencyVersion) -> (r: Option<&IconImage>)
        ensures
            match r {
                Option::Some(img) => self@.lookup(key, deps.spec_value()) == Some(img@),
                Option::None => self@.lookup(key, deps.spec_value()) is None,
            },
    {
        proof {
            use_type_invariant(self);
        }
        let n = self.cache.len();
        let mut i: usize = 0;
        while i < n
            invariant
                n == self.cache@.len(),
                i <= n,
                unique_keys(self.cache@),
                forall|j: int| 0 <= j < i ==> (#[trigger] self.cache@[j]).key != key,
            decreases n - i,
        {
            if self.cache[i].key == key {
                proof {
                    lemma_entry_in_map(self.cache@, i as int);
                }
                if self.cache[i].dep == deps.value {
                    return Some(&self.cache[i].image);
                } else {
                    return None;
                }
            }
            i = i + 1;
        }
        proof {
            lemma_key_absent(self.cache@, key);
        }
        None
    }

    /// Stores an image in the cache under the given key and dependency
    /// version, replacing any prior entry for that key.
    pub fn store(&mut self, key: CacheKey, image: IconImage, deps: DependencyVersion)
        ensures
            final(self)@.config == old(self)@.config,
            final(self)@.enabled == old(self)@.enabled,
            final(self)@.version == old(self)@.version,
            final(self)@.cache == old(self)@.cache.insert(key, (image@, deps.spec_value())),
    {
        proof {
            use_type_invariant(&*self);
        }
        let mut cache: Vec<CacheEntry> = Vec::new();
        core::mem::swap(&mut cache, &mut self.cache);
        cache_store(&mut cache, key, image, deps.value);
        core::mem::swap(&mut cache, &mut self.cache);
    }
}

/// Finds the index of the entry carrying `key`, if any.
fn cache_find(cache: &Vec<CacheEntry>, key: CacheKey) -> (r: Option<usize>)
    ensures
        match r {
            Option::Some(i) => i < cache@.len() && cache@[i as int].key == key,
            Option::None => forall|j: int| 0 <= j < cache@.len() ==> (#[trigger] cache@[j]).key != key,
        },
{
    let n = cache.len();
    let mut i: usize = 0;
    while i < n
        invariant
            n == cache@.len(),
            i <= n,
            forall|j: int| 0 <= j < i ==> (#[trigger] cache@[j]).key != key,
        decreases n - i,
    {
        if cache[i].key == key {
            return Some(i);
        }
        i = i + 1;
    }
    None
}

/// Inserts or replaces the entry for `key` in a uniquely-keyed cache list.
fn cache_store(cache: &mut Vec<CacheEntry>, key: CacheKey, image: IconImage, dep: u64)
    requires
        unique_keys(old(cache)@),
    ensures
        unique_keys(final(cache)@),
        cache_as_map(final(cache)@) == cache_as_map(old(cache)@).insert(key, (image@, dep)),
{
    let entry = CacheEntry { key, image, dep };
    match cache_find(cache, key) {
        Some(i) => {
            proof {
                lemma_update_entry(cache@, i as int, entry);
            }
            *vstd::std_specs::vec::vec_index_mut(cache, i) = entry;
        },
        None => {
            proof {
                lemma_key_absent(cache@, key);
                assert(cache@.push(entry).drop_last() =~= cache@);
                assert(unique_keys(cache@.push(entry)));
            }
            cache.push(entry);
        },
    }
}

impl<C> Default for Layer<C> {
    /// A fresh layer: no configuration, enabled, version zero, empty cache.
    fn default() -> (r: Self)
        ensures
            r@ == (LayerModel {
                config: Option::<C>::None,
                enabled: true,
                version: 0u64,
                cache: Map::<CacheKey, (IconView, u64)>::empty(),
            }),
    {
        Layer { config: None, enabled: true, version: 0, cache: Vec::new() }
    }
}

// ============================================================================
// Composite layer
// ============================================================================

/// Mathematical view of the composite cache: a version plus cache contents.
pub ghost struct CompositeModel {
    pub version: u64,
    pub cache: Map<CacheKey, (IconView, u64)>,
}

impl CompositeModel {
    /// The cached image for a key, provided the stored dependency version
    /// matches the given one.
    pub open spec fn lookup(self, key: CacheKey, dep: u64) -> Option<IconView> {
        if self.cache.dom().contains(key) && self.cache[key].1 == dep {
            Some(self.cache[key].0)
        } else {
            None
        }
    }
}

/// A cache-only layer for final composited images.
///
/// Unlike a configured layer this has no configuration or enabled state: it
/// purely caches the final rendered output and tracks a version for
/// invalidation when any upstream layer changes.
pub struct CompositeLayer {
    version: u64,
    cache: Vec<CacheEntry>,
}

impl View for CompositeLayer {
    type V = CompositeModel;

    closed spec fn view(&self) -> CompositeModel {
        CompositeModel { version: self.version, cache: cache_as_map(self.cache@) }
    }
}

impl CompositeLayer {
    #[verifier::type_invariant]
    spec fn type_wf(self) -> bool {
        unique_keys(self.cache@)
    }

    /// Returns the current version number.
    pub fn version(&self) -> (r: u64)
        ensures
            r == self@.version,
    {
        self.version
    }

    /// Invalidates the cache and increments the version.
    pub fn invalidate(&mut self)
        ensures
            final(self)@.version == wrap_inc(old(self)@.version),
            final(self)@.cache == Map::<CacheKey, (IconView, u64)>::empty(),
    {
        proof {
            use_type_invariant(&*self);
        }
        self.version = self.version.wrapping_add(1);
        self.cache = Vec::new();
    }

    /// Gets a cached image if one is stored for the given key under the
    /// given dependency version.
    pub fn get_cached(&self, key: CacheKey, deps: DependencyVersion) -> (r: Option<&IconImage>)
        ensures
            match r {
                Option::Some(img) => self@.lookup(key, deps.spec_value()) == Some(img@),
                Option::None => self@.lookup(key, deps.spec_value()) is None,
            },
    {
        proof {
            use_type_invariant(self);
        }
        match cache_find(&self.cache, key) {
            Some(i) => {
                proof {
                    lemma_entry_in_map(self.cache@, i as int);
                }
                if self.cache[i].dep == deps.value {
                    Some(&self.cache[i].image)
                } else {
                    None
                }
            },
            None => {
                proof {
                    lemma_key_absent(self.cache@, key);
                }
                None
            },
        }
    }

    /// Stores an image in the cache under the given key and dependency
    /// version, replacing any prior entry for that key.
    pub fn store(&mut self, key: CacheKey, image: IconImage, deps: DependencyVersion)
        ensures
            final(self)@.version == old(self)@.version,
            final(self)@.cache == old(self)@.cache.insert(key, (image@, deps.spec_value())),
    {
        proof {
            use_type_invariant(&*self);
        }
        let mut cache: Vec<CacheEntry> = Vec::new();
        core::mem::swap(&mut cache, &mut self.cache);
        cache_store(&mut cache, key, image, deps.value);
        core::mem::swap(&mut cache, &mut self.cache);
    }
}

impl Default for CompositeLayer {
    /// A fresh composite cache: version zero, no entries.
    fn default() -> (r: Self)
        ensures
            r@ == (CompositeModel {
                version: 0u64,
                cache: Map::<CacheKey, (IconView, u64)>::empty(),
            }),
    {
        CompositeLayer { version: 0, cache: Vec::new() }
    }
}

impl<C: LayerEffect> Layer<C> {
    /// Apply this layer to the render context, using the cache if it holds
    /// a valid entry.
    ///
    /// If the layer is not active, the context passes through unchanged. On
    /// a valid cache hit the context image is adopted from the cache and the
    /// emit step re-runs against the current channel (emission is never
    /// cached). Otherwise transform and emit run and the resulting image is
    /// stored under the freshly computed dependency version.
    pub fn apply(&mut self, ctx: &mut RenderContext, key: CacheKey, versions: &LayerVersions)
        ensures
            (final(self)@, final(ctx)@) == layer_apply_model(old(self)@, old(ctx)@, key, *versions),
    {
        if !self.is_active() {
            return;
        }
        let deps = C::dependencies(versions);
        let mut hit = false;
        if let Some(cached) = self.get_cached(key, deps) {
            ctx.image = cached.clone();
            hit = true;
        }
        if hit {
            let cfg = self.config().unwrap();
            cfg.emit(ctx);
            return;
        }
        let cfg = self.config().unwrap();
        cfg.transform(ctx);
        cfg.emit(ctx);
        let image = ctx.image.clone();
        self.store(key, image, deps);
    }
}

// ============================================================================
// Layer pipeline
// ============================================================================

/// Mathematical view of the whole pipeline: the three layers plus the
/// composite cache.
pub ghost struct PipelineModel {
    pub hue: LayerModel<HueRotationConfig>,
    pub decal: LayerModel<DecalConfig>,
    pub overlay: LayerModel<SvgOverlayConfig>,
    pub composite: CompositeModel,
}

impl PipelineModel {
    /// The snapshot of all layer versions.
    pub open spec fn versions(self) -> LayerVersions {
        LayerVersions { hue: self.hue.version, decal: self.decal.version, overlay: self.overlay.version }
    }

    /// The combined dependency version of the composite cache: the wrapping
    /// sum of the three layer versions. The sum is not collision free:
    /// distinct version triples can combine to the same value.
    pub open spec fn composite_dep(self) -> u64 {
        wrap_sum(seq![self.hue.version, self.decal.version, self.overlay.version])
    }
}

/// What one full render does to the pipeline and what image it returns.
///
/// If the composite cache holds an entry for the image's size key under the
/// current combined version, that entry is returned and nothing changes.
/// Otherwise a fresh channel is made from the base image, the hue, decal and
/// overlay layers are applied in that fixed order (each using or filling its
/// own cache), and the resulting image is stored in the composite cache
/// under the combined version and returned.
pub open spec fn pipeline_render_model(p: PipelineModel, base: IconView) -> (
    PipelineModel,
    IconView,
) {
    let key = key_of(base);
    let dep = p.composite_dep();
    match p.composite.lookup(key, dep) {
        Option::Some(iv) => (p, iv),
        Option::None => {
            let c0 = ChannelView { image: base, dominant: Option::None };
            let versions = p.versions();
            let (h1, c1) = layer_apply_model(p.hue, c0, key, versions);
            let (d1, c2) = layer_apply_model(p.decal, c1, key, versions);
            let (o1, c3) = layer_apply_model(p.overlay, c2, key, versions);
            (
                PipelineModel {
                    hue: h1,
                    decal: d1,
                    overlay: o1,
                    composite: CompositeModel {
                        version: p.composite.version,
                        cache: p.composite.cache.insert(key, (c3.image, dep)),
                    },
                },
                c3.image,
            )
        },
    }
}

/// The layer pipeline with its fixed dependency relationships.
///
/// The hue layer is a root; the decal depends on the hue layer; the overlay
/// is independent and applied last; the composite cache depends on all
/// three.
pub struct LayerPipeline {
    /// Hue rotation layer (root, no dependencies).
    pub hue: Layer<HueRotationConfig>,
    /// Decal imprint layer (depends on hue).
    pub decal: Layer<DecalConfig>,
    /// Symbol overlay layer (no dependencies, applied last).
    pub overlay: Layer<SvgOverlayConfig>,
    /// Composite cache (depends on all layers).
    pub composite: CompositeLayer,
}

impl View for LayerPipeline {
    type V = PipelineModel;

    open spec fn view(&self) -> PipelineModel {
        PipelineModel {
            hue: self.hue@,
            decal: self.decal@,
            overlay: self.overlay@,
            composite: self.composite@,
        }
    }
}

impl Default for LayerPipeline {
    /// A fresh pipeline: three fresh layers and an empty composite cache.
    fn default() -> (r: Self)
        ensures
            r@.hue == (LayerModel {
                config: Option::<HueRotationConfig>::None,
                enabled: true,
                version: 0u64,
                cache: Map::<CacheKey, (IconView, u64)>::empty(),
            }),
            r@.decal == (LayerModel {
                config: Option::<DecalConfig>::None,
                enabled: true,
                version: 0u64,
                cache: Map::<CacheKey, (IconView, u64)>::empty(),
            }),
            r@.overlay == (LayerModel {
                config: Option::<SvgOverlayConfig>::None,
                enabled: true,
                version: 0u64,
                cache: Map::<CacheKey, (IconView, u64)>::empty(),
            }),
            r@.composite == (CompositeModel {
                version: 0u64,
                cache: Map::<CacheKey, (IconView, u64)>::empty(),
            }),
    {
        LayerPipeline {
            hue: Layer::default(),
            decal: Layer::default(),
            overlay: Layer::default(),
            composite: CompositeLayer::default(),
        }
    }
}

impl LayerPipeline {
    /// Returns a snapshot of all layer versions, from which each layer
    /// computes the versions of its upstream dependencies.
    pub fn layer_versions(&self) -> (r: LayerVersions)
        ensures
            r == self@.versions(),
    {
        LayerVersions {
            hue: self.hue.version(),
            decal: self.decal.version(),
            overlay: self.overlay.version(),
        }
    }

    /// Invalidates all caches and increments every version.
    pub fn invalidate_all(&mut self)
        ensures
            final(self)@.hue == layer_invalidate_model(old(self)@.hue),
            final(self)@.decal == layer_invalidate_model(old(self)@.decal),
            final(self)@.overlay == layer_invalidate_model(old(self)@.overlay),
            final(self)@.composite.version == wrap_inc(old(self)@.composite.version),
            final(self)@.composite.cache == Map::<CacheKey, (IconView, u64)>::empty(),
    {
        self.hue.invalidate();
        self.decal.invalidate();
        self.overlay.invalidate();
        self.composite.invalidate();
    }

    /// Returns the combined dependency version for the composite cache.
    fn composite_dependencies(&self) -> (r: DependencyVersion)
        ensures
            r.spec_value() == self@.composite_dep(),
    {
        let arr: [u64; 3] = [self.hue.version(), self.decal.version(), self.overlay.version()];
        proof {
            assert(arr@ =~= seq![self@.hue.version, self@.decal.version, self@.overlay.version]);
        }
        DependencyVersion::combine(arr.as_slice())
    }

    /// Renders an icon through the full layer pipeline.
    ///
    /// This is the sole entry point for rendering: it checks the composite
    /// cache first, otherwise applies hue, decal and overlay in that fixed
    /// order on a fresh channel and caches the result under the combined
    /// dependency version.
    pub fn render(&mut self, base: &IconImage) -> (r: IconImage)
        ensures
            (final(self)@, r@) == pipeline_render_model(old(self)@, base@),
    {
        let key = CacheKey::from_icon(base);
        let composite_deps = self.composite_dependencies();
        let mut hit: Option<IconImage> = None;
        if let Some(cached) = self.composite.get_cached(key, composite_deps) {
            hit = Some(cached.clone());
        }
        if let Some(img) = hit {
            return img;
        }
        let mut ctx = RenderContext::new(base.clone());
        let versions = self.layer_versions();
        self.hue.apply(&mut ctx, key, &versions);
        self.decal.apply(&mut ctx, key, &versions);
        self.overlay.apply(&mut ctx, key, &versions);
        self.composite.store(key, ctx.image.clone(), composite_deps);
        ctx.image
    }
}

// ============================================================================
// Pipeline laws
// ============================================================================

/// One stage applied without any cache: transform then emit when a
/// configuration is present, pass-through otherwise.
pub open spec fn apply_pure<C: LayerEffect>(cfg: Option<C>, c: ChannelView) -> ChannelView {
    match cfg {
        Option::Some(k) => k.emit_spec(k.transform_spec(c)),
        Option::None => c,
    }
}

/// The configuration a layer effectively renders with: its configuration
/// when active, nothing when disabled or unconfigured.
pub open spec fn effective<C>(m: LayerModel<C>) -> Option<C> {
    if m.active() {
        m.config
    } else {
        Option::None
    }
}

/// The cache-free rendering of a base image: hue, then decal, then overlay,
/// each applied purely.
pub open spec fn pure_render(
    hue: Option<HueRotationConfig>,
    decal: Option<DecalConfig>,
    overlay: Option<SvgOverlayConfig>,
    base: IconView,
) -> ChannelView {
    apply_pure(
        overlay,
        apply_pure(decal, apply_pure(hue, ChannelView { image: base, dominant: Option::None })),
    )
}

/// All four caches of the pipeline are empty.
pub open spec fn caches_empty(p: PipelineModel) -> bool {
    &&& p.hue.cache == Map::<CacheKey, (IconView, u64)>::empty()
    &&& p.decal.cache == Map::<CacheKey, (IconView, u64)>::empty()
    &&& p.overlay.cache == Map::<CacheKey, (IconView, u64)>::empty()
    &&& p.composite.cache == Map::<CacheKey, (IconView, u64)>::empty()
}

/// A render never changes a stage's observable state: configurations,
/// enabled flags and versions are exactly those of the state rendered from.
pub proof fn lemma_render_preserves_observable(p: PipelineModel, base: IconView)
    ensures
        ({
            let (p1, o1) = pipeline_render_model(p, base);
            &&& p1.hue.config == p.hue.config
            &&& p1.hue.enabled == p.hue.enabled
            &&& p1.hue.version == p.hue.version
            &&& p1.decal.config == p.decal.config
            &&& p1.decal.enabled == p.decal.enabled
            &&& p1.decal.version == p.decal.version
            &&& p1.overlay.config == p.overlay.config
            &&& p1.overlay.enabled == p.overlay.enabled
            &&& p1.overlay.version == p.overlay.version
            &&& p1.composite.version == p.composite.version
        }),
{
}

/// Rendering the same image twice with unchanged configuration yields
/// identical output: the second render is answered from the composite cache
/// with exactly the image the first render returned, and changes nothing.
pub proof fn lemma_render_idempotent(p: PipelineModel, base: IconView)
    ensures
        ({
            let (p1, o1) = pipeline_render_model(p, base);
            let (p2, o2) = pipeline_render_model(p1, base);
            o2 == o1 && p2 == p1
        }),
{
    let key = key_of(base);
    let dep = p.composite_dep();
    let (p1, o1) = pipeline_render_model(p, base);
    assert(p1.composite_dep() == dep);
    match p.composite.lookup(key, dep) {
        Option::Some(iv) => {
            assert(p1 == p);
        },
        Option::None => {
            assert(p1.composite.cache == p.composite.cache.insert(key, (o1, dep)));
            assert(p1.composite.lookup(key, dep) == Some(o1));
        },
    }
}

/// A render from empty caches computes the pure, cache-free rendering: each
/// active stage transforms and emits afresh, in the fixed order.
pub proof fn lemma_fresh_render_pure(p: PipelineModel, base: IconView)
    requires
        caches_empty(p),
    ensures
        pipeline_render_model(p, base).1 == pure_render(
            effective(p.hue),
            effective(p.decal),
            effective(p.overlay),
            base,
        ).image,
{
    let key = key_of(base);
    let dep = p.composite_dep();
    assert(!p.composite.cache.dom().contains(key));
    let c0 = ChannelView { image: base, dominant: Option::None };
    let versions = p.versions();
    assert(!p.hue.cache.dom().contains(key));
    assert(!p.decal.cache.dom().contains(key));
    assert(!p.overlay.cache.dom().contains(key));
    let (h1, c1) = layer_apply_model(p.hue, c0, key, versions);
    let (d1, c2) = layer_apply_model(p.decal, c1, key, versions);
    let (o1, c3) = layer_apply_model(p.overlay, c2, key, versions);
    assert(c1 == apply_pure(effective(p.hue), c0));
    assert(c2 == apply_pure(effective(p.decal), c1));
    assert(c3 == apply_pure(effective(p.overlay), c2));
}

/// Two pipelines with the same stage configurations and enabled flags and
/// no cached data render any base image identically, whatever their version
/// counters hold: a cache miss path is a pure function of the
/// configurations.
pub proof fn lemma_fresh_render_agrees(p: PipelineModel, q: PipelineModel, base: IconView)
    requires
        caches_empty(p),
        caches_empty(q),
        q.hue.config == p.hue.config,
        q.hue.enabled == p.hue.enabled,
        q.decal.config == p.decal.config,
        q.decal.enabled == p.decal.enabled,
        q.overlay.config == p.overlay.config,
        q.overlay.enabled == p.overlay.enabled,
    ensures
        pipeline_render_model(p, base).1 == pipeline_render_model(q, base).1,
{
    lemma_fresh_render_pure(p, base);
    lemma_fresh_render_pure(q, base);
}

/// An observable change to a layer increases its version by exactly one
/// (wrapping) and empties its cache; a call producing no observable change
/// leaves the layer untouched. Below the counter's maximum the version
/// strictly increases.
pub proof fn lemma_monotonic_invalidation<C: LayerConfig>(
    m: LayerModel<C>,
    c: Option<C>,
    enabled: bool,
)
    ensures
        ({
            let after = layer_set_config_model(m, c);
            &&& set_config_changes(m.config, c) ==> after.version == wrap_inc(m.version)
                && after.cache == Map::<CacheKey, (IconView, u64)>::empty()
            &&& !set_config_changes(m.config, c) ==> after == m
            &&& m.version < u64::MAX && set_config_changes(m.config, c) ==> after.version
                > m.version
        }),
        ({
            let after = layer_set_enabled_model(m, enabled);
            &&& m.enabled != enabled ==> after.version == wrap_inc(m.version) && after.cache
                == Map::<CacheKey, (IconView, u64)>::empty() && after.config == m.config
            &&& m.enabled == enabled ==> after == m
            &&& m.version < u64::MAX && m.enabled != enabled ==> after.version > m.version
        }),
{
}

/// The wrapping sum of three versions is plain addition modulo 2^64.
proof fn lemma_wrap_sum3(a: u64, b: u64, c: u64)
    ensures
        wrap_sum(seq![a, b, c]) == ((a + b + c) % 0x1_0000_0000_0000_0000) as u64,
{
    let m: int = 0x1_0000_0000_0000_0000;
    let s = seq![a, b, c];
    reveal_with_fuel(wrap_sum, 5);
    assert(s.drop_last() =~= seq![a, b]);
    assert(seq![a, b].drop_last() =~= seq![a]);
    assert(seq![a].drop_last() =~= Seq::<u64>::empty());
    assert((0 + a as int) % m == a as int) by (nonlinear_arith)
        requires
            0 <= a < m,
    ;
    assert(wrap_sum(seq![a]) == a);
    assert(wrap_sum(seq![a, b]) == ((a + b) % m) as u64);
    vstd::arithmetic::div_mod::lemma_mod_bound(a + b, m);
    vstd::arithmetic::div_mod::lemma_add_mod_noop(a + b, c as int, m);
    assert((c as int) % m == c as int) by (nonlinear_arith)
        requires
            0 <= c < m,
    ;
    assert(wrap_sum(s) == ((((a + b) % m) + c) % m) as u64);
    assert((((a + b) % m) + c) % m == (a + b + c) % m);
}

/// Bumping one layer's version by a small nonzero step always changes the
/// combined composite version: the sum shifts by the step, modulo 2^64.
proof fn lemma_dep_shift(a: u64, a2: u64, b: u64, c: u64, delta: int)
    requires
        0 < delta < 0x1_0000_0000_0000_0000,
        a2 == (a + delta) % 0x1_0000_0000_0000_0000,
    ensures
        wrap_sum(seq![a2, b, c]) != wrap_sum(seq![a, b, c]),
{
    let m: int = 0x1_0000_0000_0000_0000;
    lemma_wrap_sum3(a, b, c);
    lemma_wrap_sum3(a2, b, c);
    vstd::arithmetic::div_mod::lemma_mod_bound(a + delta, m);
    vstd::arithmetic::div_mod::lemma_add_mod_noop(a + delta, (b + c) as int, m);
    vstd::arithmetic::div_mod::lemma_add_mod_noop_right((a + delta) % m, (b + c) as int, m);
    assert((a2 + b + c) % m == (a + delta + b + c) % m);
    let x = a + b + c;
    vstd::arithmetic::div_mod::lemma_fundamental_div_mod(x, m);
    vstd::arithmetic::div_mod::lemma_fundamental_div_mod(x + delta, m);
    vstd::arithmetic::div_mod::lemma_mod_bound(x, m);
    vstd::arithmetic::div_mod::lemma_mod_bound(x + delta, m);
    if (x + delta) % m == x % m {
        let q1 = x / m;
        let q2 = (x + delta) / m;
        assert(delta == m * q2 - m * q1);
        assert(m * q2 - m * q1 == m * (q2 - q1)) by (nonlinear_arith);
        assert(false) by (nonlinear_arith)
            requires
                delta == m * (q2 - q1),
                0 < delta < m,
                m == 0x1_0000_0000_0000_0000,
        ;
    }
}

/// wrap_inc shifts a version by one, modulo 2^64, and twice by two.
proof fn lemma_wrap_inc_mod(v: u64)
    ensures
        wrap_inc(v) == (v + 1) % 0x1_0000_0000_0000_0000,
        wrap_inc(wrap_inc(v)) == (v + 2) % 0x1_0000_0000_0000_0000,
{
    let m: int = 0x1_0000_0000_0000_0000;
    assert(m % m == 0 && (m + 1) % m == 1) by (nonlinear_arith)
        requires
            m == 0x1_0000_0000_0000_0000,
    ;
    if v == u64::MAX {
        assert(v + 1 == m);
    } else {
        assert((v + 1) % m == v + 1) by (nonlinear_arith)
            requires
                0 <= v + 1 < m,
        ;
    }
    let w = wrap_inc(v);
    if v == u64::MAX {
        assert(w == 0);
        assert((v + 2) % m == 1) by (nonlinear_arith)
            requires
                v + 2 == m + 1,
                m == 0x1_0000_0000_0000_0000,
        ;
    } else if v + 1 == u64::MAX {
        assert(wrap_inc(w) == 0);
        assert(v + 2 == m);
    } else {
        assert((v + 2) % m == v + 2) by (nonlinear_arith)
            requires
                0 <= v + 2 < m,
        ;
    }
}

/// Toggle preserves configuration: disabling a stage never clears its
/// configuration, and re-enabling it with the configuration unchanged
/// reproduces the exact pixel output obtained before disabling.
pub proof fn lemma_toggle_restores_output(p: PipelineModel, base: IconView)
    requires
        caches_empty(p),
        p.hue.enabled,
    ensures
        ({
            let (p1, o1) = pipeline_render_model(p, base);
            let p2 = PipelineModel {
                hue: layer_set_enabled_model(p1.hue, false),
                decal: p1.decal,
                overlay: p1.overlay,
                composite: p1.composite,
            };
            let p3 = PipelineModel {
                hue: layer_set_enabled_model(p2.hue, true),
                decal: p2.decal,
                overlay: p2.overlay,
                composite: p2.composite,
            };
            &&& p2.hue.config == p1.hue.config
            &&& p3.hue.config == p1.hue.config
            &&& p3.hue.enabled == p1.hue.enabled
            &&& pipeline_render_model(p3, base).1 == o1
        }),
{
    let key = key_of(base);
    let dep = p.composite_dep();
    let (p1, o1) = pipeline_render_model(p, base);
    let c0 = ChannelView { image: base, dominant: Option::None };
    let versions = p.versions();
    assert(!p.composite.cache.dom().contains(key));
    let (h1, c1) = layer_apply_model(p.hue, c0, key, versions);
    let (d1, c2) = layer_apply_model(p.decal, c1, key, versions);
    let (ov1, c3) = layer_apply_model(p.overlay, c2, key, versions);
    assert(o1 == c3.image);
    let p2 = PipelineModel {
        hue: layer_set_enabled_model(p1.hue, false),
        decal: p1.decal,
        overlay: p1.overlay,
        composite: p1.composite,
    };
    let p3 = PipelineModel {
        hue: layer_set_enabled_model(p2.hue, true),
        decal: p2.decal,
        overlay: p2.overlay,
        composite: p2.composite,
    };
    let dep3 = p3.composite_dep();
    let versions3 = p3.versions();
    if p3.composite.lookup(key, dep3) is Some {
        assert(pipeline_render_model(p3, base).1 == o1);
    } else {
        let (h1b, c1b) = layer_apply_model(p3.hue, c0, key, versions3);
        assert(c1b == c1);
        let (d1b, c2b) = layer_apply_model(p3.decal, c1b, key, versions3);
        assert(c2b.image == c2.image);
        let (ov1b, c3b) = layer_apply_model(p3.overlay, c2b, key, versions3);
        assert(c3b.image == c3.image);
        assert(pipeline_render_model(p3, base).1 == o1);
    }
}

/// Cross-stage invalidation: disabling the hue stage while the decal stays
/// configured and enabled changes the decal's effective dependency version,
/// invalidates its cached rendering, and makes the next render the pure
/// rendering with the hue stage skipped — in which the decal falls back to
/// the un-rotated dominant color. (An active overlay is excluded: its cache
/// carries no dependency version, so it would re-serve its old image.)
pub proof fn lemma_cross_stage_invalidation(p: PipelineModel, base: IconView)
    requires
        caches_empty(p),
        p.hue.active(),
        p.decal.active(),
        !p.overlay.active(),
    ensures
        ({
            let (p1, o1) = pipeline_render_model(p, base);
            let p2 = PipelineModel {
                hue: layer_set_enabled_model(p1.hue, false),
                decal: p1.decal,
                overlay: p1.overlay,
                composite: p1.composite,
            };
            let key = key_of(base);
            &&& <DecalConfig as LayerEffect>::deps_spec(p2.versions())
                != <DecalConfig as LayerEffect>::deps_spec(p1.versions())
            &&& p2.decal.lookup(key, <DecalConfig as LayerEffect>::deps_spec(p2.versions()))
                is None
            &&& pipeline_render_model(p2, base).1 == pure_render(
                Option::<HueRotationConfig>::None,
                effective(p2.decal),
                effective(p2.overlay),
                base,
            ).image
        }),
{
    let key = key_of(base);
    let dep = p.composite_dep();
    let (p1, o1) = pipeline_render_model(p, base);
    let c0 = ChannelView { image: base, dominant: Option::None };
    let versions = p.versions();
    assert(!p.composite.cache.dom().contains(key));
    let (h1, c1) = layer_apply_model(p.hue, c0, key, versions);
    let (d1, c2) = layer_apply_model(p.decal, c1, key, versions);
    let (ov1, c3) = layer_apply_model(p.overlay, c2, key, versions);
    let p2 = PipelineModel {
        hue: layer_set_enabled_model(p1.hue, false),
        decal: p1.decal,
        overlay: p1.overlay,
        composite: p1.composite,
    };
    lemma_wrap_inc_mod(p.hue.version);
    assert(p2.hue.version == wrap_inc(p.hue.version));
    // The decal's dependency version is the hue version, which changed.
    assert(p2.versions().hue != p1.versions().hue);
    // The decal's cache holds one entry, stored under the old hue version.
    assert(p2.decal.cache == p.decal.cache.insert(key, (c2.image, p.hue.version)));
    assert(p2.decal.lookup(key, p2.versions().hue) is None);
    // The composite entry was stored under the old combined version.
    lemma_dep_shift(p.hue.version, p2.hue.version, p.decal.version, p.overlay.version, 1);
    assert(seq![p2.hue.version, p2.decal.version, p2.overlay.version] =~= seq![
        p2.hue.version,
        p.decal.version,
        p.overlay.version,
    ]);
    assert(p2.composite_dep() != dep);
    assert(p2.composite.lookup(key, p2.composite_dep()) is None);
    // The second render recomputes: hue passes through, the decal renders
    // from the un-rotated image, the overlay is inactive.
    let versions2 = p2.versions();
    let (h1b, c1b) = layer_apply_model(p2.hue, c0, key, versions2);
    assert(c1b == c0);
    let (d1b, c2b) = layer_apply_model(p2.decal, c1b, key, versions2);
    assert(c2b == apply_pure(effective(p2.decal), c0));
    let (ov1b, c3b) = layer_apply_model(p2.overlay, c2b, key, versions2);
    assert(c3b == c2b);
}

} // verus!
