//! The metadata catalog and the per-image metadata record.
//!
//! The catalog is a fixed mapping from dotted key strings such as
//! `camera.make` to a closed set of metadata kinds. The record holds, as
//! plain values, the fields of a decoded image that the renderer projects
//! into filename text.

use vstd::prelude::*;
use vstd::string::StrSliceExecFns;
use vstd::string::StringExecFns;

use crate::strutil::replace_slashes;
use crate::strutil::spec_dec_digits;
use crate::strutil::spec_sanitize;
use crate::strutil::str_eq;
use crate::strutil::u32_to_string;

verus! {

broadcast use vstd::string::group_string_axioms;

/// The closed set of metadata tags a format string can reference.
#[derive(Clone, Copy, Debug, PartialEq, Eq, Structural)]
pub enum MetadataKind {
    CameraMake,
    CameraModel,
    CameraShutterSpeed,
    CameraExposureComp,
    CameraISO,
    CameraFlash,
    LensFStop,
    LensMake,
    LensModel,
    LensFocalLength,
    LensFocusDist,
    ImageColorSpace,
    ImageSequenceNumber,
    ImageHeight,
    ImageWidth,
    ImageBitDepth,
    ImageOriginalFilename,
}

/// The dotted key of each metadata kind, as a user writes it inside braces.
pub open spec fn spec_key(k: MetadataKind) -> Seq<char> {
    match k {
        MetadataKind::CameraMake => "camera.make"@,
        MetadataKind::CameraModel => "camera.model"@,
        MetadataKind::CameraShutterSpeed => "camera.shutter_speed"@,
        MetadataKind::CameraExposureComp => "camera.exposure_compensation"@,
        MetadataKind::CameraISO => "camera.iso"@,
        MetadataKind::CameraFlash => "camea.flash"@,
        MetadataKind::LensFStop => "lens.fstop"@,
        MetadataKind::LensMake => "lens.make"@,
        MetadataKind::LensModel => "lens.model"@,
        MetadataKind::LensFocalLength => "lens.focal_length"@,
        MetadataKind::LensFocusDist => "lens.focus_distance"@,
        MetadataKind::ImageColorSpace => "image.color_space"@,
        MetadataKind::ImageSequenceNumber => "image.sequence_number"@,
        MetadataKind::ImageHeight => "image.height"@,
        MetadataKind::ImageWidth => "image.width"@,
        MetadataKind::ImageBitDepth => "image.bit_depth"@,
        MetadataKind::ImageOriginalFilename => "image.original_filename"@,
    }
}

/// The catalog: which metadata kind, if any, a key string names.
pub open spec fn spec_lookup(s: Seq<char>) -> Option<MetadataKind> {
    if s == "camera.make"@ {
        Some(MetadataKind::CameraMake)
    } else if s == "camera.model"@ {
        Some(MetadataKind::CameraModel)
    } else if s == "camera.shutter_speed"@ {
        Some(MetadataKind::CameraShutterSpeed)
    } else if s == "camera.iso"@ {
        Some(MetadataKind::CameraISO)
    } else if s == "camera.exposure_compensation"@ {
        Some(MetadataKind::CameraExposureComp)
    } else if s == "camea.flash"@ {
        Some(MetadataKind::CameraFlash)
    } else if s == "lens.make"@ {
        Some(MetadataKind::LensMake)
    } else if s == "lens.model"@ {
        Some(MetadataKind::LensModel)
    } else if s == "lens.focal_length"@ {
        Some(MetadataKind::LensFocalLength)
    } else if s == "lens.focus_distance"@ {
        Some(MetadataKind::LensFocusDist)
    } else if s == "lens.fstop"@ {
        Some(MetadataKind::LensFStop)
    } else if s == "image.width"@ {
        Some(MetadataKind::ImageWidth)
    } else if s == "image.height"@ {
        Some(MetadataKind::ImageHeight)
    } else if s == "image.bit_depth"@ {
        Some(MetadataKind::ImageBitDepth)
    } else if s == "image.color_space"@ {
        Some(MetadataKind::ImageColorSpace)
    } else if s == "image.sequence_number"@ {
        Some(MetadataKind::ImageSequenceNumber)
    } else if s == "image.original_filename"@ {
        Some(MetadataKind::ImageOriginalFilename)
    } else {
        None
    }
}

/// Resolves a dotted key against the catalog.
pub fn lookup_key(s: &str) -> (r: Option<MetadataKind>)
    ensures
        r == spec_lookup(s@),
{
    if str_eq(s, "camera.make") {
        Some(MetadataKind::CameraMake)
    } else if str_eq(s, "camera.model") {
        Some(MetadataKind::CameraModel)
    } else if str_eq(s, "camera.shutter_speed") {
        Some(MetadataKind::CameraShutterSpeed)
    } else if str_eq(s, "camera.iso") {
        Some(MetadataKind::CameraISO)
    } else if str_eq(s, "camera.exposure_compensation") {
        Some(MetadataKind::CameraExposureComp)
    } else if str_eq(s, "camea.flash") {
        Some(MetadataKind::CameraFlash)
    } else if str_eq(s, "lens.make") {
        Some(MetadataKind::LensMake)
    } else if str_eq(s, "lens.model") {
        Some(MetadataKind::LensModel)
    } else if str_eq(s, "lens.focal_length") {
        Some(MetadataKind::LensFocalLength)
    } else if str_eq(s, "lens.focus_distance") {
        Some(MetadataKind::LensFocusDist)
    } else if str_eq(s, "lens.fstop") {
        Some(MetadataKind::LensFStop)
    } else if str_eq(s, "image.width") {
        Some(MetadataKind::ImageWidth)
    } else if str_eq(s, "image.height") {
        Some(MetadataKind::ImageHeight)
    } else if str_eq(s, "image.bit_depth") {
        Some(MetadataKind::ImageBitDepth)
    } else if str_eq(s, "image.color_space") {
        Some(MetadataKind::ImageColorSpace)
    } else if str_eq(s, "image.sequence_number") {
        Some(MetadataKind::ImageSequenceNumber)
    } else if str_eq(s, "image.original_filename") {
        Some(MetadataKind::ImageOriginalFilename)
    } else {
        None
    }
}

impl MetadataKind {
    /// The dotted key under which the catalog lists this kind.
    pub fn as_str(self) -> (r: &'static str)
        ensures
            r@ == spec_key(self),
    {
        match self {
            MetadataKind::CameraMake => "camera.make",
            MetadataKind::CameraModel => "camera.model",
            MetadataKind::CameraShutterSpeed => "camera.shutter_speed",
            MetadataKind::CameraExposureComp => "camera.exposure_compensation",
            MetadataKind::CameraISO => "camera.iso",
            MetadataKind::CameraFlash => "camea.flash",
            MetadataKind::LensFStop => "lens.fstop",
            MetadataKind::LensMake => "lens.make",
            MetadataKind::LensModel => "lens.model",
            MetadataKind::LensFocalLength => "lens.focal_length",
            MetadataKind::LensFocusDist => "lens.focus_distance",
            MetadataKind::ImageColorSpace => "image.color_space",
            MetadataKind::ImageSequenceNumber => "image.sequence_number",
            MetadataKind::ImageHeight => "image.height",
            MetadataKind::ImageWidth => "image.width",
            MetadataKind::ImageBitDepth => "image.bit_depth",
            MetadataKind::ImageOriginalFilename => "image.original_filename",
        }
    }
}

/// Looking a kind's own key up in the catalog gives that kind back: the
/// catalog has an entry for every kind and no two kinds share a key.
pub proof fn lemma_key_round_trip(k: MetadataKind)
    ensures
        spec_lookup(spec_key(k)) == Some(k),
{
    reveal_strlit("camera.make");
    reveal_strlit("camera.model");
    reveal_strlit("camera.shutter_speed");
    reveal_strlit("camera.exposure_compensation");
    reveal_strlit("camera.iso");
    reveal_strlit("camea.flash");
    reveal_strlit("lens.fstop");
    reveal_strlit("lens.make");
    reveal_strlit("lens.model");
    reveal_strlit("lens.focal_length");
    reveal_strlit("lens.focus_distance");
    reveal_strlit("image.color_space");
    reveal_strlit("image.sequence_number");
    reveal_strlit("image.height");
    reveal_strlit("image.width");
    reveal_strlit("image.bit_depth");
    reveal_strlit("image.original_filename");
    // Bring each key's length into scope, so that keys of unequal length are
    // known to differ.
    assert("camera.make"@.len() == 11);
    assert("camera.model"@.len() == 12);
    assert("camera.shutter_speed"@.len() == 20);
    assert("camera.exposure_compensation"@.len() == 28);
    assert("camera.iso"@.len() == 10);
    assert("camea.flash"@.len() == 11);
    assert("lens.fstop"@.len() == 10);
    assert("lens.make"@.len() == 9);
    assert("lens.model"@.len() == 10);
    assert("lens.focal_length"@.len() == 17);
    assert("lens.focus_distance"@.len() == 19);
    assert("image.color_space"@.len() == 17);
    assert("image.sequence_number"@.len() == 21);
    assert("image.height"@.len() == 12);
    assert("image.width"@.len() == 11);
    assert("image.bit_depth"@.len() == 15);
    assert("image.original_filename"@.len() == 23);
    // Keys of equal length differ at some character.
    assert("camera.make"@[4] != "camea.flash"@[4]);
    assert("camera.make"@[0] != "image.width"@[0]);
    assert("camea.flash"@[0] != "image.width"@[0]);
    assert("camera.model"@[0] != "image.height"@[0]);
    assert("camera.iso"@[0] != "lens.fstop"@[0]);
    assert("camera.iso"@[0] != "lens.model"@[0]);
    assert("lens.fstop"@[5] != "lens.model"@[5]);
    assert("lens.focal_length"@[0] != "image.color_space"@[0]);
    match k {
        MetadataKind::CameraMake => assert(spec_lookup(spec_key(k)) == Some(k)),
        MetadataKind::CameraModel => assert(spec_lookup(spec_key(k)) == Some(k)),
        MetadataKind::CameraShutterSpeed => assert(spec_lookup(spec_key(k)) == Some(k)),
        MetadataKind::CameraExposureComp => assert(spec_lookup(spec_key(k)) == Some(k)),
        MetadataKind::CameraISO => assert(spec_lookup(spec_key(k)) == Some(k)),
        MetadataKind::CameraFlash => assert(spec_lookup(spec_key(k)) == Some(k)),
        MetadataKind::LensFStop => assert(spec_lookup(spec_key(k)) == Some(k)),
        MetadataKind::LensMake => assert(spec_lookup(spec_key(k)) == Some(k)),
        MetadataKind::LensModel => assert(spec_lookup(spec_key(k)) == Some(k)),
        MetadataKind::LensFocalLength => assert(spec_lookup(spec_key(k)) == Some(k)),
        MetadataKind::LensFocusDist => assert(spec_lookup(spec_key(k)) == Some(k)),
        MetadataKind::ImageColorSpace => assert(spec_lookup(spec_key(k)) == Some(k)),
        MetadataKind::ImageSequenceNumber => assert(spec_lookup(spec_key(k)) == Some(k)),
        MetadataKind::ImageHeight => assert(spec_lookup(spec_key(k)) == Some(k)),
        MetadataKind::ImageWidth => assert(spec_lookup(spec_key(k)) == Some(k)),
        MetadataKind::ImageBitDepth => assert(spec_lookup(spec_key(k)) == Some(k)),
        MetadataKind::ImageOriginalFilename => assert(spec_lookup(spec_key(k)) == Some(k)),
    }
}

/// The ghost shape of a metadata record: every field as a mathematical value.
pub ghost struct MetadataModel {
    pub make: Seq<char>,
    pub model: Seq<char>,
    pub iso: Option<u32>,
    pub shutter_speed: Option<Seq<char>>,
    pub lens_make: Option<Seq<char>>,
    pub lens_model: Option<Seq<char>>,
    pub focal_length: Option<Seq<char>>,
    pub date_time_original: Option<Seq<char>>,
}

/// The per-image metadata record the renderer consumes, holding as plain
/// values exactly the fields the projection reads. The decoding layer fills
/// it from the imaging library's output; rational values such as shutter
/// speed and focal length arrive already rendered to text.
pub struct ImageMetadata {
    pub make: String,
    pub model: String,
    pub iso: Option<u32>,
    pub shutter_speed: Option<String>,
    pub lens_make: Option<String>,
    pub lens_model: Option<String>,
    pub focal_length: Option<String>,
    pub date_time_original: Option<String>,
}

impl View for ImageMetadata {
    type V = MetadataModel;

    open spec fn view(&self) -> MetadataModel {
        MetadataModel {
            make: self.make@,
            model: self.model@,
            iso: self.iso,
            shutter_speed: self.shutter_speed.deep_view(),
            lens_make: self.lens_make.deep_view(),
            lens_model: self.lens_model.deep_view(),
            focal_length: self.focal_length.deep_view(),
            date_time_original: self.date_time_original.deep_view(),
        }
    }
}

/// What a metadata reference contributes to a rendered filename: the record
/// field for the wired kinds, with `/` made filesystem-safe where the value
/// can be a rational; the caller's original stem for
/// `ImageOriginalFilename`; an empty string for a kind the catalog accepts
/// but no data source feeds yet, and for any absent optional field.
pub open spec fn spec_expand(k: MetadataKind, md: MetadataModel, original: Seq<char>) -> Seq<
    char,
> {
    match k {
        MetadataKind::CameraMake => md.make,
        MetadataKind::CameraModel => md.model,
        MetadataKind::CameraISO => match md.iso {
            Some(n) => spec_dec_digits(n as nat),
            None => Seq::<char>::empty(),
        },
        MetadataKind::CameraShutterSpeed => match md.shutter_speed {
            Some(s) => spec_sanitize(s),
            None => Seq::<char>::empty(),
        },
        MetadataKind::LensMake => match md.lens_make {
            Some(s) => s,
            None => Seq::<char>::empty(),
        },
        MetadataKind::LensModel => match md.lens_model {
            Some(s) => s,
            None => Seq::<char>::empty(),
        },
        MetadataKind::LensFocalLength => match md.focal_length {
            Some(s) => spec_sanitize(s),
            None => Seq::<char>::empty(),
        },
        MetadataKind::ImageOriginalFilename => original,
        _ => Seq::<char>::empty(),
    }
}

impl MetadataKind {
    /// The text this kind contributes to a rendered filename, given the
    /// image's metadata record and its original filename stem.
    pub fn expand_with_metadata(self, md: &ImageMetadata, original: &str) -> (r: String)
        ensures
            r@ == spec_expand(self, md@, original@),
    {
        match self {
            MetadataKind::CameraMake => md.make.clone(),
            MetadataKind::CameraModel => md.model.clone(),
            MetadataKind::CameraISO => match md.iso {
                Some(n) => u32_to_string(n),
                None => String::new(),
            },
            MetadataKind::CameraShutterSpeed => match &md.shutter_speed {
                Some(s) => replace_slashes(s.as_str()),
                None => String::new(),
            },
            MetadataKind::LensMake => match &md.lens_make {
                Some(s) => s.clone(),
                None => String::new(),
            },
            MetadataKind::LensModel => match &md.lens_model {
                Some(s) => s.clone(),
                None => String::new(),
            },
            MetadataKind::LensFocalLength => match &md.focal_length {
                Some(s) => replace_slashes(s.as_str()),
                None => String::new(),
            },
            MetadataKind::ImageOriginalFilename => String::from_str(original),
            _ => String::new(),
        }
    }
}

} // verus!
