//! The tag registries: for each known tag id its label, a description, and
//! whether the entry's value is the offset of another directory. One table
//! holds the TIFF and Exif tags, another the tags of the camera maker's note.

use crate::format::decimal;
use vstd::prelude::*;

verus! {

/// The label of the directory that holds the camera maker's own tags, and of
/// the tag that points to it.
pub open spec fn maker_note_label() -> Seq<char> {
    "MakerNote"@
}

/// A resolved tag.
#[derive(Clone, Debug)]
pub struct Tag {
    pub id: u16,
    /// Set when the entry's value is the offset of a sub-directory.
    pub ifd: bool,
    pub label: String,
    pub description: String,
}

/// The abstract value of a `Tag`.
pub ghost struct TagView {
    pub id: u16,
    pub ifd: bool,
    pub label: Seq<char>,
    pub description: Seq<char>,
}

impl View for Tag {
    type V = TagView;

    open spec fn view(&self) -> TagView {
        TagView { id: self.id, ifd: self.ifd, label: self.label@, description: self.description@ }
    }
}

/// The TIFF and Exif tags.
pub open spec fn generic_tag(id: u16) -> Option<TagView> {
    match id {
        0x00FE => Some(TagView { id: 0x00FE, ifd: false, label: "NewSubfileType"@, description: "Kind of data in this subfile"@ }),
        0x0100 => Some(TagView { id: 0x0100, ifd: false, label: "ImageWidth"@, description: "Number of columns in the image"@ }),
        0x0101 => Some(TagView { id: 0x0101, ifd: false, label: "ImageLength"@, description: "Number of rows in the image"@ }),
        0x0102 => Some(TagView { id: 0x0102, ifd: false, label: "BitsPerSample"@, description: "Bits per component"@ }),
        0x0103 => Some(TagView { id: 0x0103, ifd: false, label: "Compression"@, description: "Compression scheme"@ }),
        0x0106 => Some(TagView { id: 0x0106, ifd: false, label: "PhotometricInterpretation"@, description: "Pixel composition"@ }),
        0x010E => Some(TagView { id: 0x010E, ifd: false, label: "ImageDescription"@, description: "Image title"@ }),
        0x010F => Some(TagView { id: 0x010F, ifd: false, label: "Make"@, description: "Manufacturer of the recording equipment"@ }),
        0x0110 => Some(TagView { id: 0x0110, ifd: false, label: "Model"@, description: "Model of the recording equipment"@ }),
        0x0111 => Some(TagView { id: 0x0111, ifd: false, label: "StripOffsets"@, description: "Offsets of the image strips"@ }),
        0x0112 => Some(TagView { id: 0x0112, ifd: false, label: "Orientation"@, description: "Orientation of the image"@ }),
        0x0115 => Some(TagView { id: 0x0115, ifd: false, label: "SamplesPerPixel"@, description: "Number of components per pixel"@ }),
        0x0116 => Some(TagView { id: 0x0116, ifd: false, label: "RowsPerStrip"@, description: "Number of rows per strip"@ }),
        0x0117 => Some(TagView { id: 0x0117, ifd: false, label: "StripByteCounts"@, description: "Bytes in each strip"@ }),
        0x011A => Some(TagView { id: 0x011A, ifd: false, label: "XResolution"@, description: "Horizontal resolution"@ }),
        0x011B => Some(TagView { id: 0x011B, ifd: false, label: "YResolution"@, description: "Vertical resolution"@ }),
        0x011C => Some(TagView { id: 0x011C, ifd: false, label: "PlanarConfiguration"@, description: "Arrangement of the image data"@ }),
        0x0128 => Some(TagView { id: 0x0128, ifd: false, label: "ResolutionUnit"@, description: "Unit of the resolutions"@ }),
        0x0131 => Some(TagView { id: 0x0131, ifd: false, label: "Software"@, description: "Software used"@ }),
        0x0132 => Some(TagView { id: 0x0132, ifd: false, label: "DateTime"@, description: "Date and time of the last change"@ }),
        0x013B => Some(TagView { id: 0x013B, ifd: false, label: "Artist"@, description: "Person who created the image"@ }),
        0x014A => Some(TagView { id: 0x014A, ifd: true, label: "SubIFD"@, description: "Offsets of child directories"@ }),
        0x0201 => Some(TagView { id: 0x0201, ifd: false, label: "JPEGInterchangeFormat"@, description: "Offset of the JPEG preview"@ }),
        0x0202 => Some(TagView { id: 0x0202, ifd: false, label: "JPEGInterchangeFormatLength"@, description: "Length of the JPEG preview"@ }),
        0x0213 => Some(TagView { id: 0x0213, ifd: false, label: "YCbCrPositioning"@, description: "Position of chrominance samples"@ }),
        0x8298 => Some(TagView { id: 0x8298, ifd: false, label: "Copyright"@, description: "Copyright holder"@ }),
        0x829A => Some(TagView { id: 0x829A, ifd: false, label: "ExposureTime"@, description: "Exposure time in seconds"@ }),
        0x829D => Some(TagView { id: 0x829D, ifd: false, label: "FNumber"@, description: "F number"@ }),
        0x8769 => Some(TagView { id: 0x8769, ifd: true, label: "Exif"@, description: "Offset of the Exif directory"@ }),
        0x8822 => Some(TagView { id: 0x8822, ifd: false, label: "ExposureProgram"@, description: "Exposure program"@ }),
        0x8825 => Some(TagView { id: 0x8825, ifd: true, label: "GPS"@, description: "Offset of the GPS directory"@ }),
        0x8827 => Some(TagView { id: 0x8827, ifd: false, label: "ISOSpeedRatings"@, description: "ISO speed"@ }),
        0x9000 => Some(TagView { id: 0x9000, ifd: false, label: "ExifVersion"@, description: "Exif version"@ }),
        0x9003 => Some(TagView { id: 0x9003, ifd: false, label: "DateTimeOriginal"@, description: "Date and time of capture"@ }),
        0x9004 => Some(TagView { id: 0x9004, ifd: false, label: "DateTimeDigitized"@, description: "Date and time of digitizing"@ }),
        0x9201 => Some(TagView { id: 0x9201, ifd: false, label: "ShutterSpeedValue"@, description: "Shutter speed (APEX)"@ }),
        0x9202 => Some(TagView { id: 0x9202, ifd: false, label: "ApertureValue"@, description: "Aperture (APEX)"@ }),
        0x9204 => Some(TagView { id: 0x9204, ifd: false, label: "ExposureBiasValue"@, description: "Exposure bias (APEX)"@ }),
        0x9207 => Some(TagView { id: 0x9207, ifd: false, label: "MeteringMode"@, description: "Metering mode"@ }),
        0x9209 => Some(TagView { id: 0x9209, ifd: false, label: "Flash"@, description: "Flash status"@ }),
        0x920A => Some(TagView { id: 0x920A, ifd: false, label: "FocalLength"@, description: "Focal length in millimetres"@ }),
        0x927C => Some(TagView { id: 0x927C, ifd: false, label: "MakerNote"@, description: "Vendor-specific data"@ }),
        0x9286 => Some(TagView { id: 0x9286, ifd: false, label: "UserComment"@, description: "User comments"@ }),
        0xA000 => Some(TagView { id: 0xA000, ifd: false, label: "FlashpixVersion"@, description: "Supported Flashpix version"@ }),
        0xA001 => Some(TagView { id: 0xA001, ifd: false, label: "ColorSpace"@, description: "Color space"@ }),
        0xA002 => Some(TagView { id: 0xA002, ifd: false, label: "PixelXDimension"@, description: "Valid image width"@ }),
        0xA003 => Some(TagView { id: 0xA003, ifd: false, label: "PixelYDimension"@, description: "Valid image height"@ }),
        0xA005 => Some(TagView { id: 0xA005, ifd: true, label: "Interoperability"@, description: "Offset of the interoperability directory"@ }),
        0xA401 => Some(TagView { id: 0xA401, ifd: false, label: "CustomRendered"@, description: "Custom image processing"@ }),
        0xA402 => Some(TagView { id: 0xA402, ifd: false, label: "ExposureMode"@, description: "Exposure mode"@ }),
        0xA403 => Some(TagView { id: 0xA403, ifd: false, label: "WhiteBalance"@, description: "White balance mode"@ }),
        0xA406 => Some(TagView { id: 0xA406, ifd: false, label: "SceneCaptureType"@, description: "Scene capture type"@ }),
        0xA434 => Some(TagView { id: 0xA434, ifd: false, label: "LensModel"@, description: "Lens model"@ }),
        0xC634 => Some(TagView { id: 0xC634, ifd: false, label: "DNGPrivateData"@, description: "Private data of the DNG converter"@ }),
        _ => None,
    }
}

/// The tags of the camera maker's note.
pub open spec fn maker_note_tag(id: u16) -> Option<TagView> {
    match id {
        0x0102 => Some(TagView { id: 0x0102, ifd: false, label: "Quality"@, description: "Image quality"@ }),
        0x0104 => Some(TagView { id: 0x0104, ifd: false, label: "FlashExposureComp"@, description: "Flash exposure compensation"@ }),
        0x0105 => Some(TagView { id: 0x0105, ifd: false, label: "Teleconverter"@, description: "Teleconverter model"@ }),
        0x0112 => Some(TagView { id: 0x0112, ifd: false, label: "WhiteBalanceFineTune"@, description: "White balance fine tuning"@ }),
        0x0114 => Some(TagView { id: 0x0114, ifd: false, label: "CameraSettings"@, description: "Camera settings"@ }),
        0x0115 => Some(TagView { id: 0x0115, ifd: false, label: "WhiteBalance"@, description: "White balance"@ }),
        0x2001 => Some(TagView { id: 0x2001, ifd: false, label: "PreviewImage"@, description: "Embedded preview image"@ }),
        0x2002 => Some(TagView { id: 0x2002, ifd: false, label: "Rating"@, description: "Image rating"@ }),
        0x2004 => Some(TagView { id: 0x2004, ifd: false, label: "Contrast"@, description: "Contrast setting"@ }),
        0x2005 => Some(TagView { id: 0x2005, ifd: false, label: "Saturation"@, description: "Saturation setting"@ }),
        0x2006 => Some(TagView { id: 0x2006, ifd: false, label: "Sharpness"@, description: "Sharpness setting"@ }),
        0x200B => Some(TagView { id: 0x200B, ifd: false, label: "MultiFrameNoiseReduction"@, description: "Multi-frame noise reduction"@ }),
        0xB000 => Some(TagView { id: 0xB000, ifd: false, label: "FileFormat"@, description: "File format version"@ }),
        0xB001 => Some(TagView { id: 0xB001, ifd: false, label: "SonyModelID"@, description: "Camera model code"@ }),
        0xB020 => Some(TagView { id: 0xB020, ifd: false, label: "CreativeStyle"@, description: "Creative style"@ }),
        0xB025 => Some(TagView { id: 0xB025, ifd: false, label: "DynamicRangeOptimizer"@, description: "Dynamic range optimizer"@ }),
        0xB026 => Some(TagView { id: 0xB026, ifd: false, label: "ImageStabilization"@, description: "Image stabilization"@ }),
        0xB041 => Some(TagView { id: 0xB041, ifd: false, label: "ExposureMode"@, description: "Exposure mode"@ }),
        _ => None,
    }
}

/// The tag that stands for an id that the table does not hold.
pub open spec fn unknown_tag(id: u16) -> TagView {
    TagView { id: 0, ifd: false, label: "Unknown tag "@ + decimal(id as nat), description: seq![] }
}

/// The tag of `id` in the maker-note table when `maker_note` holds, else in
/// the generic table; a placeholder when the table lacks it.
pub open spec fn tag_view(id: u16, maker_note: bool) -> TagView {
    let found = if maker_note {
        maker_note_tag(id)
    } else {
        generic_tag(id)
    };
    match found {
        Some(t) => t,
        None => unknown_tag(id),
    }
}

impl Tag {
    fn known(id: u16, ifd: bool, label: &str, description: &str) -> (r: Tag)
        ensures
            r@ == (TagView { id, ifd, label: label@, description: description@ }),
    {
        Tag { id, ifd, label: String::from_str(label), description: String::from_str(description) }
    }
}

/// Looks `id` up in the TIFF and Exif table.
pub fn lookup_generic(id: u16) -> (r: Option<Tag>)
    ensures
        r matches Some(t) ==> generic_tag(id) == Some(t@),
        r is None ==> generic_tag(id) is None,
{
    match id {
        0x00FE => Some(Tag::known(0x00FE, false, "NewSubfileType", "Kind of data in this subfile")),
        0x0100 => Some(Tag::known(0x0100, false, "ImageWidth", "Number of columns in the image")),
        0x0101 => Some(Tag::known(0x0101, false, "ImageLength", "Number of rows in the image")),
        0x0102 => Some(Tag::known(0x0102, false, "BitsPerSample", "Bits per component")),
        0x0103 => Some(Tag::known(0x0103, false, "Compression", "Compression scheme")),
        0x0106 => Some(Tag::known(0x0106, false, "PhotometricInterpretation", "Pixel composition")),
        0x010E => Some(Tag::known(0x010E, false, "ImageDescription", "Image title")),
        0x010F => Some(Tag::known(0x010F, false, "Make", "Manufacturer of the recording equipment")),
        0x0110 => Some(Tag::known(0x0110, false, "Model", "Model of the recording equipment")),
        0x0111 => Some(Tag::known(0x0111, false, "StripOffsets", "Offsets of the image strips")),
        0x0112 => Some(Tag::known(0x0112, false, "Orientation", "Orientation of the image")),
        0x0115 => Some(Tag::known(0x0115, false, "SamplesPerPixel", "Number of components per pixel")),
        0x0116 => Some(Tag::known(0x0116, false, "RowsPerStrip", "Number of rows per strip")),
        0x0117 => Some(Tag::known(0x0117, false, "StripByteCounts", "Bytes in each strip")),
        0x011A => Some(Tag::known(0x011A, false, "XResolution", "Horizontal resolution")),
        0x011B => Some(Tag::known(0x011B, false, "YResolution", "Vertical resolution")),
        0x011C => Some(Tag::known(0x011C, false, "PlanarConfiguration", "Arrangement of the image data")),
        0x0128 => Some(Tag::known(0x0128, false, "ResolutionUnit", "Unit of the resolutions")),
        0x0131 => Some(Tag::known(0x0131, false, "Software", "Software used")),
        0x0132 => Some(Tag::known(0x0132, false, "DateTime", "Date and time of the last change")),
        0x013B => Some(Tag::known(0x013B, false, "Artist", "Person who created the image")),
        0x014A => Some(Tag::known(0x014A, true, "SubIFD", "Offsets of child directories")),
        0x0201 => Some(Tag::known(0x0201, false, "JPEGInterchangeFormat", "Offset of the JPEG preview")),
        0x0202 => Some(Tag::known(0x0202, false, "JPEGInterchangeFormatLength", "Length of the JPEG preview")),
        0x0213 => Some(Tag::known(0x0213, false, "YCbCrPositioning", "Position of chrominance samples")),
        0x8298 => Some(Tag::known(0x8298, false, "Copyright", "Copyright holder")),
        0x829A => Some(Tag::known(0x829A, false, "ExposureTime", "Exposure time in seconds")),
        0x829D => Some(Tag::known(0x829D, false, "FNumber", "F number")),
        0x8769 => Some(Tag::known(0x8769, true, "Exif", "Offset of the Exif directory")),
        0x8822 => Some(Tag::known(0x8822, false, "ExposureProgram", "Exposure program")),
        0x8825 => Some(Tag::known(0x8825, true, "GPS", "Offset of the GPS directory")),
        0x8827 => Some(Tag::known(0x8827, false, "ISOSpeedRatings", "ISO speed")),
        0x9000 => Some(Tag::known(0x9000, false, "ExifVersion", "Exif version")),
        0x9003 => Some(Tag::known(0x9003, false, "DateTimeOriginal", "Date and time of capture")),
        0x9004 => Some(Tag::known(0x9004, false, "DateTimeDigitized", "Date and time of digitizing")),
        0x9201 => Some(Tag::known(0x9201, false, "ShutterSpeedValue", "Shutter speed (APEX)")),
        0x9202 => Some(Tag::known(0x9202, false, "ApertureValue", "Aperture (APEX)")),
        0x9204 => Some(Tag::known(0x9204, false, "ExposureBiasValue", "Exposure bias (APEX)")),
        0x9207 => Some(Tag::known(0x9207, false, "MeteringMode", "Metering mode")),
        0x9209 => Some(Tag::known(0x9209, false, "Flash", "Flash status")),
        0x920A => Some(Tag::known(0x920A, false, "FocalLength", "Focal length in millimetres")),
        0x927C => Some(Tag::known(0x927C, false, "MakerNote", "Vendor-specific data")),
        0x9286 => Some(Tag::known(0x9286, false, "UserComment", "User comments")),
        0xA000 => Some(Tag::known(0xA000, false, "FlashpixVersion", "Supported Flashpix version")),
        0xA001 => Some(Tag::known(0xA001, false, "ColorSpace", "Color space")),
        0xA002 => Some(Tag::known(0xA002, false, "PixelXDimension", "Valid image width")),
        0xA003 => Some(Tag::known(0xA003, false, "PixelYDimension", "Valid image height")),
        0xA005 => Some(Tag::known(0xA005, true, "Interoperability", "Offset of the interoperability directory")),
        0xA401 => Some(Tag::known(0xA401, false, "CustomRendered", "Custom image processing")),
        0xA402 => Some(Tag::known(0xA402, false, "ExposureMode", "Exposure mode")),
        0xA403 => Some(Tag::known(0xA403, false, "WhiteBalance", "White balance mode")),
        0xA406 => Some(Tag::known(0xA406, false, "SceneCaptureType", "Scene capture type")),
        0xA434 => Some(Tag::known(0xA434, false, "LensModel", "Lens model")),
        0xC634 => Some(Tag::known(0xC634, false, "DNGPrivateData", "Private data of the DNG converter")),
        _ => None,
    }
}

/// Looks `id` up in the maker-note table.
pub fn lookup_maker_note(id: u16) -> (r: Option<Tag>)
    ensures
        r matches Some(t) ==> maker_note_tag(id) == Some(t@),
        r is None ==> maker_note_tag(id) is None,
{
    match id {
        0x0102 => Some(Tag::known(0x0102, false, "Quality", "Image quality")),
        0x0104 => Some(Tag::known(0x0104, false, "FlashExposureComp", "Flash exposure compensation")),
        0x0105 => Some(Tag::known(0x0105, false, "Teleconverter", "Teleconverter model")),
        0x0112 => Some(Tag::known(0x0112, false, "WhiteBalanceFineTune", "White balance fine tuning")),
        0x0114 => Some(Tag::known(0x0114, false, "CameraSettings", "Camera settings")),
        0x0115 => Some(Tag::known(0x0115, false, "WhiteBalance", "White balance")),
        0x2001 => Some(Tag::known(0x2001, false, "PreviewImage", "Embedded preview image")),
        0x2002 => Some(Tag::known(0x2002, false, "Rating", "Image rating")),
        0x2004 => Some(Tag::known(0x2004, false, "Contrast", "Contrast setting")),
        0x2005 => Some(Tag::known(0x2005, false, "Saturation", "Saturation setting")),
        0x2006 => Some(Tag::known(0x2006, false, "Sharpness", "Sharpness setting")),
        0x200B => Some(Tag::known(0x200B, false, "MultiFrameNoiseReduction", "Multi-frame noise reduction")),
        0xB000 => Some(Tag::known(0xB000, false, "FileFormat", "File format version")),
        0xB001 => Some(Tag::known(0xB001, false, "SonyModelID", "Camera model code")),
        0xB020 => Some(Tag::known(0xB020, false, "CreativeStyle", "Creative style")),
        0xB025 => Some(Tag::known(0xB025, false, "DynamicRangeOptimizer", "Dynamic range optimizer")),
        0xB026 => Some(Tag::known(0xB026, false, "ImageStabilization", "Image stabilization")),
        0xB041 => Some(Tag::known(0xB041, false, "ExposureMode", "Exposure mode")),
        _ => None,
    }
}

} // verus!
