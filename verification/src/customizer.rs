//! Icon customization engine: owns the immutable base icon set and the layer
//! pipeline, resolves a requested logical size to a concrete base image and
//! drives one pipeline render.

use vstd::prelude::*;

use crate::decal::{clamp_scale, DecalConfig};
use crate::hue_rotation::HueRotationConfig;
use crate::icon::{IconImage, IconSet, IconView};
use crate::layer::{
    caches_empty, layer_invalidate_model, layer_set_config_model, layer_set_enabled_model,
    lemma_render_idempotent, lemma_toggle_restores_output, pipeline_render_model, wrap_inc,
    CacheKey, LayerConfig, LayerModel, LayerPipeline, PipelineModel,
};
use crate::icon::nearest_at;
use crate::overlay::SvgOverlayConfig;
use crate::profile::{
    exchange_of_position, exchanges_source, position_of_exchange, source_of_exchange,
    CustomizationProfile, DecalSettings, HueRotationSettings, OverlaySettings,
    SerializablePosition, SerializableSvgSource,
};

verus! {

// ============================================================================
// Profile application and export, as relations on the pipeline model
// ============================================================================

/// The stage configuration a hue settings entry stands for: the angle
/// normalized into `[0, 360000)`.
pub open spec fn hue_config_of_settings(s: HueRotationSettings) -> HueRotationConfig {
    HueRotationConfig { millidegrees: ((s.millidegrees as int) % 360000) as u32 }
}

/// What applying an optional hue settings entry does to the hue layer:
/// present settings replace the configuration (normalized) and then set the
/// enabled flag; an absent entry clears the configuration and leaves the
/// enabled flag alone.
pub open spec fn applies_hue(
    old_m: LayerModel<HueRotationConfig>,
    p: Option<HueRotationSettings>,
    new_m: LayerModel<HueRotationConfig>,
) -> bool {
    match p {
        Option::Some(s) => new_m == layer_set_enabled_model(
            layer_set_config_model(old_m, Some(hue_config_of_settings(s))),
            s.enabled,
        ),
        Option::None => new_m == layer_set_config_model(
            old_m,
            Option::<HueRotationConfig>::None,
        ),
    }
}

/// What applying an optional decal settings entry does to the decal layer.
pub open spec fn applies_decal(
    old_m: LayerModel<DecalConfig>,
    p: Option<DecalSettings>,
    new_m: LayerModel<DecalConfig>,
) -> bool {
    match p {
        Option::Some(s) => exists|cfg: DecalConfig|
            {
                &&& #[trigger] source_of_exchange(s.source, cfg.source)
                &&& cfg.scale == clamp_scale(s.scale)
                &&& new_m == layer_set_enabled_model(
                    layer_set_config_model(old_m, Some(cfg)),
                    s.enabled,
                )
            },
        Option::None => new_m == layer_set_config_model(old_m, Option::<DecalConfig>::None),
    }
}

/// What applying an optional overlay settings entry does to the overlay
/// layer.
pub open spec fn applies_overlay(
    old_m: LayerModel<SvgOverlayConfig>,
    p: Option<OverlaySettings>,
    new_m: LayerModel<SvgOverlayConfig>,
) -> bool {
    match p {
        Option::Some(s) => exists|cfg: SvgOverlayConfig|
            {
                &&& #[trigger] source_of_exchange(s.source, cfg.source)
                &&& cfg.position == position_of_exchange(s.position)
                &&& cfg.scale == clamp_scale(s.scale)
                &&& new_m == layer_set_enabled_model(
                    layer_set_config_model(old_m, Some(cfg)),
                    s.enabled,
                )
            },
        Option::None => new_m == layer_set_config_model(old_m, Option::<SvgOverlayConfig>::None),
    }
}

/// What applying a whole profile does to the pipeline: each stage entry
/// applies independently; the composite cache is untouched.
pub open spec fn applies_profile(
    old_p: PipelineModel,
    prof: CustomizationProfile,
    new_p: PipelineModel,
) -> bool {
    &&& applies_hue(old_p.hue, prof.hue_rotation, new_p.hue)
    &&& applies_decal(old_p.decal, prof.decal, new_p.decal)
    &&& applies_overlay(old_p.overlay, prof.overlay, new_p.overlay)
    &&& new_p.composite == old_p.composite
}

/// The exported settings of the hue layer: its configuration and enabled
/// flag, field for field; no entry when it has no configuration.
pub open spec fn exports_hue(
    m: LayerModel<HueRotationConfig>,
    e: Option<HueRotationSettings>,
) -> bool {
    match m.config {
        Option::Some(c) => e == Some(
            HueRotationSettings { millidegrees: c.millidegrees as i64, enabled: m.enabled },
        ),
        Option::None => e is None,
    }
}

/// The exported settings of the decal layer.
pub open spec fn exports_decal(m: LayerModel<DecalConfig>, e: Option<DecalSettings>) -> bool {
    match m.config {
        Option::Some(c) => e is Some && exchanges_source(e.unwrap().source, c.source)
            && e.unwrap().scale == c.scale && e.unwrap().enabled == m.enabled,
        Option::None => e is None,
    }
}

/// The exported settings of the overlay layer.
pub open spec fn exports_overlay(
    m: LayerModel<SvgOverlayConfig>,
    e: Option<OverlaySettings>,
) -> bool {
    match m.config {
        Option::Some(c) => e is Some && exchanges_source(e.unwrap().source, c.source)
            && e.unwrap().position == exchange_of_position(c.position) && e.unwrap().scale
            == c.scale && e.unwrap().enabled == m.enabled,
        Option::None => e is None,
    }
}

/// The exported profile of a pipeline: one optional entry per stage.
pub open spec fn exports_profile(p: PipelineModel, prof: CustomizationProfile) -> bool {
    &&& exports_hue(p.hue, prof.hue_rotation)
    &&& exports_decal(p.decal, prof.decal)
    &&& exports_overlay(p.overlay, prof.overlay)
}

// ============================================================================
// Configurable
// ============================================================================

/// Types whose settings can be exchanged through a
/// [`CustomizationProfile`].
pub trait Configurable {
    /// Applies a profile's settings to this instance.
    fn apply_profile(&mut self, profile: &CustomizationProfile);

    /// Exports the current settings as a profile.
    fn export_profile(&self) -> CustomizationProfile;
}

// ============================================================================
// IconCustomizer
// ============================================================================

/// Main icon customization engine.
///
/// Holds the immutable base icon set and the layer pipeline; layers are
/// configured directly through the [`pipeline`](Self::pipeline) field.
pub struct IconCustomizer {
    /// The base icon set rendering starts from; rendering never modifies it.
    pub base_icons: IconSet,
    /// The layer pipeline. Access layers directly to configure them.
    pub pipeline: LayerPipeline,
}

/// The views of a sequence of icon images.
pub open spec fn views_of(s: Seq<IconImage>) -> Seq<IconView> {
    s.map_values(|img: IconImage| img@)
}

/// What rendering every base image in order does to the pipeline, and the
/// rendered images it produces.
pub open spec fn render_all_model(p: PipelineModel, bases: Seq<IconView>) -> (
    PipelineModel,
    Seq<IconView>,
)
    decreases bases.len(),
{
    if bases.len() == 0 {
        (p, Seq::empty())
    } else {
        let (p1, firsts) = render_all_model(p, bases.drop_last());
        let (p2, img) = pipeline_render_model(p1, bases.last());
        (p2, firsts.push(img))
    }
}

impl IconCustomizer {
    /// The base icon set this customizer renders from.
    pub open spec fn spec_base_icons(&self) -> Seq<IconImage> {
        self.base_icons.images@
    }

    /// The model of this customizer's pipeline. Open so that callers can
    /// connect configuration made through the public `pipeline` field with
    /// the rendering contracts stated over this model.
    pub open spec fn spec_pipeline(&self) -> PipelineModel {
        self.pipeline@
    }

    /// Every base icon is well formed (in particular, has a positive display
    /// scale).
    pub open spec fn wf(&self) -> bool {
        forall|i: int|
            0 <= i < self.spec_base_icons().len() ==> (#[trigger] self.spec_base_icons()[i])@.wf()
    }

    /// Creates a new customizer with the given base icon set and a fresh
    /// pipeline.
    pub fn new(base_icons: IconSet) -> (r: IconCustomizer)
        ensures
            r.spec_base_icons() == base_icons.images@,
            r.spec_pipeline().hue.config is None,
            r.spec_pipeline().hue.enabled,
            r.spec_pipeline().hue.version == 0,
            r.spec_pipeline().hue.cache == Map::<CacheKey, (IconView, u64)>::empty(),
            r.spec_pipeline().decal.config is None,
            r.spec_pipeline().decal.enabled,
            r.spec_pipeline().decal.version == 0,
            r.spec_pipeline().decal.cache == Map::<CacheKey, (IconView, u64)>::empty(),
            r.spec_pipeline().overlay.config is None,
            r.spec_pipeline().overlay.enabled,
            r.spec_pipeline().overlay.version == 0,
            r.spec_pipeline().overlay.cache == Map::<CacheKey, (IconView, u64)>::empty(),
            r.spec_pipeline().composite.version == 0,
            r.spec_pipeline().composite.cache == Map::<CacheKey, (IconView, u64)>::empty(),
    {
        IconCustomizer { base_icons, pipeline: LayerPipeline::default() }
    }

    /// Returns a reference to the base icon set.
    pub fn base_icons(&self) -> (r: &IconSet)
        ensures
            r.images@ == self.spec_base_icons(),
    {
        &self.base_icons
    }

    /// Renders a single icon at the specified logical size.
    ///
    /// The base image whose logical width lies nearest the requested size is
    /// rendered with all enabled customizations applied; returns nothing
    /// exactly when the base icon set is empty.
    pub fn render(&mut self, logical_size: u32) -> (r: Option<IconImage>)
        requires
            old(self).wf(),
        ensures
            final(self).spec_base_icons() == old(self).spec_base_icons(),
            match r {
                Option::None => old(self).spec_base_icons().len() == 0 && final(self).spec_pipeline()
                    == old(self).spec_pipeline(),
                Option::Some(img) => exists|i: int|
                    {
                        &&& #[trigger] nearest_at(old(self).spec_base_icons(), logical_size, i)
                        &&& (final(self).spec_pipeline(), img@) == pipeline_render_model(
                            old(self).spec_pipeline(),
                            old(self).spec_base_icons()[i]@,
                        )
                    },
            },
    {
        let found = self.base_icons.find_by_logical_size(logical_size);
        match found {
            None => None,
            Some(base) => {
                let base = base.clone();
                Some(self.pipeline.render(&base))
            },
        }
    }

    /// Renders every size in the base icon set with customizations applied,
    /// in the set's order.
    pub fn render_all(&mut self) -> (r: IconSet)
        ensures
            final(self).spec_base_icons() == old(self).spec_base_icons(),
            (final(self).spec_pipeline(), views_of(r.images@)) == render_all_model(
                old(self).spec_pipeline(),
                views_of(old(self).spec_base_icons()),
            ),
    {
        let n = self.base_icons.images.len();
        let ghost bviews = views_of(old(self).spec_base_icons());
        let mut rendered: Vec<IconImage> = Vec::new();
        let mut i: usize = 0;
        proof {
            assert(bviews.take(0) =~= Seq::<IconView>::empty());
            assert(views_of(rendered@) =~= Seq::<IconView>::empty());
        }
        while i < n
            invariant
                n == old(self).spec_base_icons().len(),
                self.spec_base_icons() == old(self).spec_base_icons(),
                bviews == views_of(old(self).spec_base_icons()),
                i <= n,
                (self.spec_pipeline(), views_of(rendered@)) == render_all_model(
                    old(self).spec_pipeline(),
                    bviews.take(i as int),
                ),
            decreases n - i,
        {
            let base = self.base_icons.images[i].clone();
            let ghost rendered_views_before = views_of(rendered@);
            let img = self.pipeline.render(&base);
            proof {
                assert(bviews.take(i + 1).drop_last() =~= bviews.take(i as int));
                assert(bviews[i as int] == self.spec_base_icons()[i as int]@);
                assert(bviews.take(i + 1).last() == base@);
            }
            rendered.push(img);
            proof {
                assert(views_of(rendered@) =~= rendered_views_before.push(img@));
            }
            i = i + 1;
        }
        proof {
            assert(bviews.take(n as int) =~= bviews);
        }
        IconSet::from_images(rendered)
    }

    /// Clears all layer caches and increments every version. Useful for
    /// bounding memory.
    pub fn clear_cache(&mut self)
        ensures
            final(self).spec_base_icons() == old(self).spec_base_icons(),
            final(self).spec_pipeline().hue == layer_invalidate_model(old(self).spec_pipeline().hue),
            final(self).spec_pipeline().decal == layer_invalidate_model(old(self).spec_pipeline().decal),
            final(self).spec_pipeline().overlay == layer_invalidate_model(old(self).spec_pipeline().overlay),
            final(self).spec_pipeline().composite.version == wrap_inc(
                old(self).spec_pipeline().composite.version,
            ),
            final(self).spec_pipeline().composite.cache == Map::<CacheKey, (IconView, u64)>::empty(),
    {
        self.pipeline.invalidate_all();
    }
}

impl Configurable for IconCustomizer {
    /// Applies a profile's settings: for each stage, a present entry
    /// replaces the configuration and then sets the enabled flag, an absent
    /// entry clears the configuration.
    fn apply_profile(&mut self, profile: &CustomizationProfile)
        ensures
            final(self).spec_base_icons() == old(self).spec_base_icons(),
            applies_profile(old(self).spec_pipeline(), *profile, final(self).spec_pipeline()),
    {
        match &profile.hue_rotation {
            Some(settings) => {
                self.pipeline.hue.set_config(Some(HueRotationConfig::new(settings.millidegrees)));
                self.pipeline.hue.set_enabled(settings.enabled);
            },
            None => {
                self.pipeline.hue.set_config(None);
            },
        }
        match &profile.decal {
            Some(settings) => {
                let source = settings.source.to_source();
                let cfg = DecalConfig::from_source(source, settings.scale);
                let ghost cfg_w = cfg;
                self.pipeline.decal.set_config(Some(cfg));
                self.pipeline.decal.set_enabled(settings.enabled);
                proof {
                    assert(source_of_exchange(settings.source, cfg_w.source));
                }
            },
            None => {
                self.pipeline.decal.set_config(None);
            },
        }
        match &profile.overlay {
            Some(settings) => {
                let source = settings.source.to_source();
                let cfg = SvgOverlayConfig::new(
                    source,
                    settings.position.to_position(),
                    settings.scale,
                );
                let ghost cfg_w = cfg;
                self.pipeline.overlay.set_config(Some(cfg));
                self.pipeline.overlay.set_enabled(settings.enabled);
                proof {
                    assert(source_of_exchange(settings.source, cfg_w.source));
                }
            },
            None => {
                self.pipeline.overlay.set_config(None);
            },
        }
    }

    /// Exports the current settings: one entry per configured stage, with
    /// its configuration and enabled flag, field for field.
    fn export_profile(&self) -> (r: CustomizationProfile)
        ensures
            exports_profile(self.spec_pipeline(), r),
    {
        let hue_rotation: Option<HueRotationSettings> = match self.pipeline.hue.config() {
            Some(c) => Some(
                HueRotationSettings {
                    millidegrees: c.millidegrees as i64,
                    enabled: self.pipeline.hue.is_enabled(),
                },
            ),
            None => None,
        };
        let decal: Option<DecalSettings> = match self.pipeline.decal.config() {
            Some(c) => Some(
                DecalSettings {
                    source: SerializableSvgSource::of_source(&c.source),
                    scale: c.scale,
                    enabled: self.pipeline.decal.is_enabled(),
                },
            ),
            None => None,
        };
        let overlay: Option<OverlaySettings> = match self.pipeline.overlay.config() {
            Some(c) => Some(
                OverlaySettings {
                    source: SerializableSvgSource::of_source(&c.source),
                    position: SerializablePosition::of_position(c.position),
                    scale: c.scale,
                    enabled: self.pipeline.overlay.is_enabled(),
                },
            ),
            None => None,
        };
        CustomizationProfile { hue_rotation, decal, overlay }
    }
}

// ============================================================================
// Round trip
// ============================================================================

/// A pipeline is canonical when every stored configuration is in the form
/// its constructor produces: hue angle within `[0, 360000)`, scales within
/// `[0, 10000]`.
pub open spec fn canonical(p: PipelineModel) -> bool {
    &&& match p.hue.config {
        Option::Some(c) => c.millidegrees < 360000,
        Option::None => true,
    }
    &&& match p.decal.config {
        Option::Some(c) => c.scale <= 10000,
        Option::None => true,
    }
    &&& match p.overlay.config {
        Option::Some(c) => c.scale <= 10000,
        Option::None => true,
    }
}

/// Round trip: exporting a profile and re-applying it to the same pipeline
/// reproduces identical stage configurations and enabled flags — in fact it
/// leaves the whole pipeline exactly as it was, caches included, because
/// every re-applied setting is recognized as unchanged.
pub proof fn lemma_profile_round_trip(
    m: PipelineModel,
    prof: CustomizationProfile,
    m2: PipelineModel,
)
    requires
        canonical(m),
        exports_profile(m, prof),
        applies_profile(m, prof, m2),
    ensures
        m2 == m,
{
    match m.hue.config {
        Option::Some(c) => {
            vstd::arithmetic::div_mod::lemma_small_mod(c.millidegrees as nat, 360000);
            assert(hue_config_of_settings(prof.hue_rotation.unwrap()) == c);
            assert(m2.hue == m.hue);
        },
        Option::None => {
            assert(m2.hue == m.hue);
        },
    }
    match m.decal.config {
        Option::Some(c) => {
            let s = prof.decal.unwrap();
            let cfg = choose|cfg: DecalConfig|
                {
                    &&& #[trigger] source_of_exchange(s.source, cfg.source)
                    &&& cfg.scale == clamp_scale(s.scale)
                    &&& m2.decal == layer_set_enabled_model(
                        layer_set_config_model(m.decal, Some(cfg)),
                        s.enabled,
                    )
                };
            assert(crate::svg::svg_source_eq(c.source, cfg.source));
            assert(!c.differs_spec(cfg));
            assert(m2.decal == m.decal);
        },
        Option::None => {
            assert(m2.decal == m.decal);
        },
    }
    match m.overlay.config {
        Option::Some(c) => {
            let s = prof.overlay.unwrap();
            let cfg = choose|cfg: SvgOverlayConfig|
                {
                    &&& #[trigger] source_of_exchange(s.source, cfg.source)
                    &&& cfg.position == position_of_exchange(s.position)
                    &&& cfg.scale == clamp_scale(s.scale)
                    &&& m2.overlay == layer_set_enabled_model(
                        layer_set_config_model(m.overlay, Some(cfg)),
                        s.enabled,
                    )
                };
            assert(crate::svg::svg_source_eq(c.source, cfg.source));
            assert(cfg.position == c.position);
            assert(!c.differs_spec(cfg));
            assert(m2.overlay == m.overlay);
        },
        Option::None => {
            assert(m2.overlay == m.overlay);
        },
    }
}

/// Rendering the same logical size twice with no state change in between
/// returns the identical image: the nearest base image is unique, so both
/// calls render the same base, and the second render is answered from the
/// composite cache with exactly the image the first render returned,
/// changing nothing.
pub proof fn lemma_render_same_size_twice(
    bases: Seq<IconImage>,
    p: PipelineModel,
    size: u32,
    i: int,
    j: int,
)
    requires
        nearest_at(bases, size, i),
        nearest_at(bases, size, j),
    ensures
        i == j,
        ({
            let (p1, o1) = pipeline_render_model(p, bases[i]@);
            let (p2, o2) = pipeline_render_model(p1, bases[j]@);
            o2 == o1 && p2 == p1
        }),
{
    crate::icon::lemma_nearest_unique(bases, size, i, j);
    lemma_render_idempotent(p, bases[i]@);
}

/// Toggle preserves output at the render level: with fresh caches and the
/// hue stage enabled, rendering a size, disabling and re-enabling the hue
/// stage through its layer, and rendering the same size again reproduces
/// the first image byte for byte — the nearest base image is unique, so
/// both renders start from the same base.
pub proof fn lemma_toggle_restores_render(
    bases: Seq<IconImage>,
    p: PipelineModel,
    size: u32,
    i: int,
    j: int,
)
    requires
        caches_empty(p),
        p.hue.enabled,
        nearest_at(bases, size, i),
        nearest_at(bases, size, j),
    ensures
        i == j,
        ({
            let (p1, o1) = pipeline_render_model(p, bases[i]@);
            let p2 = PipelineModel {
                hue: layer_set_enabled_model(p1.hue, false),
                decal: p1.decal,
                overlay: p1.overlay,
                composite: p1.composite,
            };
            let p3 = PipelineModel {
                hue: layer_set_enabled_model(p2.hue, true),
                decal: p2.decal,
                overlay: p2.overlay,
                composite: p2.composite,
            };
            &&& p2.hue.config == p1.hue.config
            &&& p3.hue.config == p1.hue.config
            &&& pipeline_render_model(p3, bases[j]@).1 == o1
        }),
{
    crate::icon::lemma_nearest_unique(bases, size, i, j);
    lemma_toggle_restores_output(p, bases[i]@);
}

} // verus!
