//! Host CPU capability detection.
//!
//! Detection produces a normalized description of the processor: vendor text,
//! model text, and the supported instruction-set feature tags. An externally
//! supplied override (vendor and feature list, with an optional model) fully
//! replaces hardware probing when present. Otherwise the primary architecture
//! is probed through the hardware query interface, and the secondary
//! (ARM-family) architecture is described heuristically from the platform's
//! processor descriptor text.

use vstd::prelude::*;

use crate::error::AppError;
use crate::text::{split_char, split_spec, starts_with, starts_with_spec, str_eq, trim, trim_spec};

verus! {

/// Normalized description of the host processor.
pub struct CpuInfo {
    /// The processor's vendor text.
    pub vendor: String,
    /// The processor's model text.
    pub model: String,
    /// The supported instruction-set feature tags, e.g. `"avx2"`, `"sse4.2"`.
    pub features: Vec<String>,
}

impl CpuInfo {
    /// The feature tags as a sequence of texts.
    pub open spec fn features_view(&self) -> Seq<Seq<char>> {
        self.features@.map_values(|f: String| f@)
    }
}

/// An externally supplied capability description that replaces hardware
/// probing when both the vendor and the feature list are given. The model is
/// optional and defaults to a sentinel.
pub struct CpuOverride {
    /// Override for the vendor text.
    pub vendor: Option<String>,
    /// Override for the model text; optional.
    pub model: Option<String>,
    /// Override for the feature tags, as one comma-separated text.
    pub features: Option<String>,
}

/// The override replaces probing exactly when both the vendor and the feature
/// list are supplied.
pub open spec fn override_active(ov: CpuOverride) -> bool {
    ov.vendor is Some && ov.features is Some
}

/// What detection returns under an active override: the vendor verbatim, the
/// model verbatim or the sentinel `"Unknown"`, and the feature list split at
/// commas.
pub open spec fn override_info_spec(ov: CpuOverride, info: CpuInfo) -> bool {
    &&& info.vendor@ == (match ov.vendor {
        Some(v) => v@,
        None => Seq::<char>::empty(),
    })
    &&& info.model@ == (match ov.model {
        Some(m) => m@,
        None => "Unknown"@,
    })
    &&& info.features_view() == (match ov.features {
        Some(f) => split_spec(f@, ','),
        None => Seq::<Seq<char>>::empty(),
    })
}

/// The flags read from the processor's base feature record.
pub struct BaseFeatureFlags {
    /// Support for the SSE4.2 extension.
    pub sse42: bool,
    /// Support for the AVX extension.
    pub avx: bool,
}

/// The flags read from the processor's extended feature record.
pub struct ExtendedFeatureFlags {
    /// Support for the AVX2 extension.
    pub avx2: bool,
}

/// The feature tags reported for an x86-family processor with the given
/// flags: `"sse4.2"`, `"avx"`, `"avx2"`, tested in that order, each present
/// exactly when its flag is set.
pub open spec fn x86_feature_tags(base: BaseFeatureFlags, ext: ExtendedFeatureFlags) -> Seq<
    Seq<char>,
> {
    (if base.sse42 {
        seq!["sse4.2"@]
    } else {
        Seq::<Seq<char>>::empty()
    }) + (if base.avx {
        seq!["avx"@]
    } else {
        Seq::<Seq<char>>::empty()
    }) + (if ext.avx2 {
        seq!["avx2"@]
    } else {
        Seq::<Seq<char>>::empty()
    })
}

/// Relies on raw_cpuid's `CpuId::get_vendor_info` and `VendorInfo::as_str`:
/// the vendor identification text the hardware reports, or nothing when the
/// query is unavailable. The answer depends on the machine, so nothing is
/// assumed of it.
#[verifier::external_body]
fn probe_vendor() -> Option<String> {
    match raw_cpuid::CpuId::new().get_vendor_info() {
        Some(v) => Some(v.as_str().to_string()),
        None => None,
    }
}

/// Relies on raw_cpuid's `CpuId::get_processor_brand_string` and
/// `ProcessorBrandString::as_str`: the processor brand text, or nothing when
/// the query is unavailable. The answer depends on the machine, so nothing is
/// assumed of it.
#[verifier::external_body]
fn probe_brand() -> Option<String> {
    match raw_cpuid::CpuId::new().get_processor_brand_string() {
        Some(b) => Some(b.as_str().to_string()),
        None => None,
    }
}

/// Relies on raw_cpuid's `CpuId::get_feature_info` with `FeatureInfo`'s
/// `has_sse42` and `has_avx`: the base feature record, or nothing when the
/// query is unavailable. The answer depends on the machine, so nothing is
/// assumed of it.
#[verifier::external_body]
fn probe_base_flags() -> Option<BaseFeatureFlags> {
    match raw_cpuid::CpuId::new().get_feature_info() {
        Some(f) => Some(BaseFeatureFlags { sse42: f.has_sse42(), avx: f.has_avx() }),
        None => None,
    }
}

/// Relies on raw_cpuid's `CpuId::get_extended_feature_info` with
/// `ExtendedFeatures::has_avx2`: the extended feature record, or nothing when
/// the query is unavailable. The answer depends on the machine, so nothing is
/// assumed of it.
#[verifier::external_body]
fn probe_extended_flags() -> Option<ExtendedFeatureFlags> {
    match raw_cpuid::CpuId::new().get_extended_feature_info() {
        Some(e) => Some(ExtendedFeatureFlags { avx2: e.has_avx2() }),
        None => None,
    }
}

/// Assembles the x86-family description from the four probe answers.
///
/// Each unavailable probe is a distinct fatal detection error — the prober
/// never guesses. With all four available, the result carries the vendor and
/// brand verbatim and the feature tags determined by the flags.
pub fn x86_info_from(
    vendor: Option<String>,
    brand: Option<String>,
    base: Option<BaseFeatureFlags>,
    ext: Option<ExtendedFeatureFlags>,
) -> (r: Result<CpuInfo, AppError>)
    ensures
        (vendor is None ==> (r matches Err(e) && e matches AppError::CpuDetectionError(m) && m@
            == "Не удалось получить информацию о производителе"@)),
        (vendor is Some && brand is None ==> (r matches Err(e) && e
            matches AppError::CpuDetectionError(m) && m@
            == "Не удалось получить информацию о модели процессора"@)),
        (vendor is Some && brand is Some && base is None ==> (r matches Err(e) && e
            matches AppError::CpuDetectionError(m) && m@
            == "Не удалось получить информацию о поддерживаемых инструкциях"@)),
        (vendor is Some && brand is Some && base is Some && ext is None ==> (r matches Err(e) && e
            matches AppError::CpuDetectionError(m) && m@
            == "Не удалось получить расширенную информацию о поддерживаемых инструкциях"@)),
        (vendor is Some && brand is Some && base is Some && ext is Some ==> (r matches Ok(info)
            && info.vendor@ == vendor->Some_0@ && info.model@ == brand->Some_0@
            && info.features_view() == x86_feature_tags(base->Some_0, ext->Some_0))),
{
    let vendor = match vendor {
        Some(v) => v,
        None => {
            return Err(
                AppError::CpuDetectionError(
                    String::from_str(
                        "Не удалось получить информацию о производителе",
                    ),
                ),
            );
        },
    };
    let brand = match brand {
        Some(b) => b,
        None => {
            return Err(
                AppError::CpuDetectionError(
                    String::from_str(
                        "Не удалось получить информацию о модели процессора",
                    ),
                ),
            );
        },
    };
    let base = match base {
        Some(b) => b,
        None => {
            return Err(
                AppError::CpuDetectionError(
                    String::from_str(
                        "Не удалось получить информацию о поддерживаемых инструкциях",
                    ),
                ),
            );
        },
    };
    let ext = match ext {
        Some(e) => e,
        None => {
            return Err(
                AppError::CpuDetectionError(
                    String::from_str(
                        "Не удалось получить расширенную информацию о поддерживаемых инструкциях",
                    ),
                ),
            );
        },
    };
    let mut features: Vec<String> = Vec::new();
    if base.sse42 {
        features.push(String::from_str("sse4.2"));
    }
    if base.avx {
        features.push(String::from_str("avx"));
    }
    if ext.avx2 {
        features.push(String::from_str("avx2"));
    }
    let info = CpuInfo { vendor, model: brand, features };
    proof {
        assert(info.features_view() =~~= x86_feature_tags(base, ext));
    }
    Ok(info)
}

/// The value a descriptor line carries: the text between the first colon and
/// the next colon or the end of the line, trimmed — or nothing when the line
/// has no colon.
pub open spec fn line_value_spec(line: Seq<char>) -> Option<Seq<char>> {
    let parts = split_spec(line, ':');
    if parts.len() >= 2 {
        Some(trim_spec(parts[1]))
    } else {
        None
    }
}

/// Whether a descriptor line names the field of interest: the hardware/vendor
/// field, or the model field (under either of its two spellings).
pub open spec fn field_line_matches(line: Seq<char>, model_field: bool) -> bool {
    if model_field {
        starts_with_spec(line, "model name"@) || starts_with_spec(line, "Processor"@)
    } else {
        starts_with_spec(line, "Hardware"@)
    }
}

/// The value of the first line that names the field of interest and carries a
/// value — first match wins.
pub open spec fn first_field_value(lines: Seq<Seq<char>>, model_field: bool) -> Option<Seq<char>>
    decreases lines.len(),
{
    if lines.len() == 0 {
        None
    } else if field_line_matches(lines.first(), model_field) && line_value_spec(lines.first())
        is Some {
        line_value_spec(lines.first())
    } else {
        first_field_value(lines.drop_first(), model_field)
    }
}

/// Extracts the value a descriptor line carries, if any.
fn line_value(line: &str) -> (r: Option<String>)
    ensures
        (r matches Some(v) ==> line_value_spec(line@) == Some(v@)),
        (r is None ==> line_value_spec(line@) is None),
{
    let parts = split_char(line, ':');
    if parts.len() >= 2 {
        proof {
            assert(parts@.map_values(|t: String| t@)[1] == parts@[1]@);
        }
        Some(trim(parts[1].as_str()))
    } else {
        None
    }
}

/// Decides whether a descriptor line names the field of interest.
fn line_matches(line: &str, model_field: bool) -> (r: bool)
    ensures
        r == field_line_matches(line@, model_field),
{
    if model_field {
        starts_with(line, "model name") || starts_with(line, "Processor")
    } else {
        starts_with(line, "Hardware")
    }
}

/// Finds the first descriptor line that names the field of interest and
/// carries a value.
fn find_field_value(lines: &Vec<String>, model_field: bool) -> (r: Option<String>)
    ensures
        (r matches Some(v) ==> first_field_value(lines@.map_values(|l: String| l@), model_field)
            == Some(v@)),
        (r is None ==> first_field_value(lines@.map_values(|l: String| l@), model_field)
            is None),
{
    let ghost lv = lines@.map_values(|l: String| l@);
    proof {
        assert(lv.skip(0) =~= lv);
    }
    let mut i: usize = 0;
    while i < lines.len()
        invariant
            i <= lines@.len(),
            lv == lines@.map_values(|l: String| l@),
            first_field_value(lv.skip(i as int), model_field) == first_field_value(
                lv,
                model_field,
            ),
        decreases lines@.len() - i,
    {
        proof {
            assert(lv.skip(i as int).first() == lv[i as int]);
            assert(lv.skip(i as int).drop_first() =~= lv.skip(i + 1));
        }
        if line_matches(lines[i].as_str(), model_field) {
            match line_value(lines[i].as_str()) {
                Some(v) => {
                    return Some(v);
                },
                None => {},
            }
        }
        i = i + 1;
    }
    proof {
        assert(lv.skip(lines@.len() as int) =~= Seq::<Seq<char>>::empty());
    }
    None
}

/// The vendor text reported for an ARM-family processor: the first
/// hardware-field value of the descriptor text, or `"ARM"` when the text is
/// unreadable or carries none.
pub open spec fn aarch64_vendor_spec(cpuinfo: Option<Seq<char>>) -> Seq<char> {
    match cpuinfo {
        Some(t) => match first_field_value(split_spec(t, '\n'), false) {
            Some(v) => v,
            None => "ARM"@,
        },
        None => "ARM"@,
    }
}

/// The model text reported for an ARM-family processor: the first model-field
/// value of the descriptor text, or the fallback when the text is unreadable
/// or carries none.
pub open spec fn aarch64_model_spec(cpuinfo: Option<Seq<char>>) -> Seq<char> {
    match cpuinfo {
        Some(t) => match first_field_value(split_spec(t, '\n'), true) {
            Some(v) => v,
            None => "Unknown ARM Processor"@,
        },
        None => "Unknown ARM Processor"@,
    }
}

/// The view of an optional descriptor text.
pub open spec fn opt_text_view(t: Option<&str>) -> Option<Seq<char>> {
    match t {
        Some(s) => Some(s@),
        None => None,
    }
}

/// Describes an ARM-family processor from the platform's processor descriptor
/// text, when readable.
///
/// No system-wide capability query exists there, so detection is heuristic:
/// the hardware and model lines of the descriptor are parsed (first matching
/// line wins per field), missing information falls back to fixed texts, and
/// the single feature tag `"neon"` is always reported — a deliberate
/// approximation, not a probe. This path never fails.
pub fn detect_aarch64(cpuinfo: Option<&str>) -> (r: Result<CpuInfo, AppError>)
    ensures
        r matches Ok(info) && info.vendor@ == aarch64_vendor_spec(opt_text_view(cpuinfo))
            && info.model@ == aarch64_model_spec(opt_text_view(cpuinfo)) && info.features_view()
            == seq!["neon"@],
{
    let mut vendor = String::from_str("ARM");
    let mut model = String::from_str("Unknown ARM Processor");
    match cpuinfo {
        Some(text) => {
            let lines = split_char(text, '\n');
            match find_field_value(&lines, false) {
                Some(v) => {
                    vendor = v;
                },
                None => {},
            }
            match find_field_value(&lines, true) {
                Some(m) => {
                    model = m;
                },
                None => {},
            }
        },
        None => {},
    }
    let mut features: Vec<String> = Vec::new();
    features.push(String::from_str("neon"));
    let info = CpuInfo { vendor, model, features };
    proof {
        assert(info.features_view() =~~= seq!["neon"@]);
    }
    Ok(info)
}

/// Probes the x86-family processor and assembles its description.
///
/// The four hardware queries depend on the machine, so the exact answer
/// cannot be pinned down here; what holds of every outcome is that a failure
/// is a detection error and a success reports feature tags that some pair of
/// flag records determines.
pub fn detect_x86_64() -> (r: Result<CpuInfo, AppError>)
    ensures
        (r matches Err(e) ==> e matches AppError::CpuDetectionError(_)),
        (r matches Ok(info) ==> exists|bf: BaseFeatureFlags, ef: ExtendedFeatureFlags|
            info.features_view() == x86_feature_tags(bf, ef)),
{
    x86_info_from(probe_vendor(), probe_brand(), probe_base_flags(), probe_extended_flags())
}

/// Determines the host processor's capabilities.
///
/// An active override (vendor and feature list both supplied) is returned
/// verbatim, before and instead of any hardware probing. Otherwise detection
/// dispatches on the host architecture: the x86 family is probed through the
/// hardware query interface, the ARM family is described from the platform
/// descriptor text, and any other architecture is a fatal detection error
/// naming it.
pub fn detect_cpu(overrides: CpuOverride, arch: &str, cpuinfo: Option<&str>) -> (r: Result<
    CpuInfo,
    AppError,
>)
    ensures
        (override_active(overrides) ==> (r matches Ok(info) && override_info_spec(
            overrides,
            info,
        ))),
        (!override_active(overrides) && arch@ == "aarch64"@ ==> (r matches Ok(info)
            && info.vendor@ == aarch64_vendor_spec(opt_text_view(cpuinfo)) && info.model@
            == aarch64_model_spec(opt_text_view(cpuinfo)) && info.features_view() == seq![
            "neon"@,
        ])),
        (!override_active(overrides) && arch@ == "x86_64"@ ==> ((r matches Err(e) ==> e
            matches AppError::CpuDetectionError(_)) && (r matches Ok(info) ==> exists|
            bf: BaseFeatureFlags,
            ef: ExtendedFeatureFlags,
        | info.features_view() == x86_feature_tags(bf, ef)))),
        (!override_active(overrides) && arch@ != "x86_64"@ && arch@ != "aarch64"@ ==> (r
            matches Err(e) && e matches AppError::CpuDetectionError(m) && m@
            == "Неподдерживаемая архитектура: "@ + arch@)),
{
    let active = overrides.vendor.is_some() && overrides.features.is_some();
    if active {
        let CpuOverride { vendor, model, features } = overrides;
        let v = vendor.unwrap();
        let f = features.unwrap();
        let model_text = match model {
            Some(m) => m,
            None => String::from_str("Unknown"),
        };
        let feature_list = split_char(f.as_str(), ',');
        return Ok(CpuInfo { vendor: v, model: model_text, features: feature_list });
    }
    proof {
        reveal_strlit("x86_64");
        reveal_strlit("aarch64");
        assert("x86_64"@.len() != "aarch64"@.len());
    }
    if str_eq(arch, "x86_64") {
        detect_x86_64()
    } else if str_eq(arch, "aarch64") {
        detect_aarch64(cpuinfo)
    } else {
        Err(
            AppError::CpuDetectionError(
                String::from_str("Неподдерживаемая архитектура: ").concat(arch),
            ),
        )
    }
}

} // verus!
