//! Import and export of rootfs images.
use vstd::prelude::*;

verus! {

/// Image formats.
#[derive(Debug, Clone, Copy, PartialEq, Eq, Structural)]
pub enum ImageFormat {
    TarGz,
    TarXz,
    TarZst,
    Squashfs,
    Ext4,
    Raw,
}

/// The decompression of an imported tar archive.
#[derive(Debug, Clone, Copy, PartialEq, Eq, Structural)]
pub enum Decompression {
    Gzip,
    Xz,
    Zstd,
}

/// Why an image operation was refused.
#[derive(Debug, Clone, Copy, PartialEq, Eq, Structural)]
pub enum ImageError {
    UnsupportedImport,
    UnsupportedExport,
}

/// How an image of `format` is imported: tar archives compressed with
/// gzip, xz or zstd are; other formats are not.
pub open spec fn import_route(format: ImageFormat) -> Result<Decompression, ImageError> {
    match format {
        ImageFormat::TarGz => Ok(Decompression::Gzip),
        ImageFormat::TarXz => Ok(Decompression::Xz),
        ImageFormat::TarZst => Ok(Decompression::Zstd),
        _ => Err(ImageError::UnsupportedImport),
    }
}

/// Whether an image of `format` can be exported: only gzip-compressed tar.
pub open spec fn exportable(format: ImageFormat) -> bool {
    format == ImageFormat::TarGz
}

/// The decompression for importing an image of `format`.
pub fn import_decompression(format: ImageFormat) -> (r: Result<Decompression, ImageError>)
    ensures
        r == import_route(format),
{
    match format {
        ImageFormat::TarGz => Ok(Decompression::Gzip),
        ImageFormat::TarXz => Ok(Decompression::Xz),
        ImageFormat::TarZst => Ok(Decompression::Zstd),
        _ => Err(ImageError::UnsupportedImport),
    }
}

/// Check that an image of `format` can be exported.
pub fn export_supported(format: ImageFormat) -> (r: Result<(), ImageError>)
    ensures
        r == (if exportable(format) { Ok(()) } else { Err(ImageError::UnsupportedExport) }),
{
    match format {
        ImageFormat::TarGz => Ok(()),
        _ => Err(ImageError::UnsupportedExport),
    }
}

/// Every image that can be exported can be imported again, with the
/// decompression that matches its compression.
pub proof fn law_export_reimportable(format: ImageFormat)
    ensures
        exportable(format) ==> import_route(format) == Ok::<Decompression, ImageError>(Decompression::Gzip),
{
}

} // verus!
