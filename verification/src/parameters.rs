//! How an upload is to be compressed: the parameters handed to the storage
//! layer and to the image compressor, and the query parameters a client sends
//! to choose them.

use vstd::prelude::*;

use crate::text::same_text;

verus! {

/// Whether the bytes are gzipped.
#[derive(Debug, Clone, Copy, PartialEq, Eq, Structural)]
pub enum Compression {
    NoCompression,
    Gzip,
}

/// How an image is recompressed.
#[derive(Debug, Clone, Copy, PartialEq, Eq, Structural)]
pub enum ImageCompression {
    NoCompression,
    Lossless,
    Lossy,
    Auto,
}

/// Which format an image is converted to.
#[derive(Debug, Clone, Copy, PartialEq, Eq, Structural)]
pub enum ImageConversion {
    NoConversion,
    Webp,
    Jpeg,
    Png,
    Tiff,
}

/// Target dimensions of an image, in pixels; an absent side keeps the ratio.
#[derive(Debug, Clone, Copy, PartialEq, Eq, Structural)]
pub struct ImageResize {
    pub height: Option<u32>,
    pub width: Option<u32>,
}

/// What the image compressor does to an image.
#[derive(Debug, Clone, Copy, PartialEq, Eq, Structural)]
pub struct ImageParameters {
    pub compression: ImageCompression,
    pub conversion: ImageConversion,
    pub resize: ImageResize,
}

/// What the storage layer does to the bytes it stores.
#[derive(Debug, Clone, Copy, PartialEq, Eq, Structural)]
pub struct StorageParameters {
    pub compression: Compression,
    pub image: ImageParameters,
}

impl StorageParameters {
    /// Gzip with lossy image compression, no conversion and no resize.
    pub fn compressed_lossy() -> (p: StorageParameters)
        ensures
            p == compressed_lossy_parameters(),
    {
        StorageParameters {
            compression: Compression::Gzip,
            image: ImageParameters {
                compression: ImageCompression::Lossy,
                conversion: ImageConversion::NoConversion,
                resize: ImageResize { height: None, width: None },
            },
        }
    }

    /// Sets the image compression mode.
    pub fn with_image_compression(&mut self, compression: ImageCompression)
        ensures
            *final(self) == (StorageParameters {
                image: ImageParameters { compression, ..old(self).image },
                ..*old(self)
            }),
    {
        self.image.compression = compression;
    }

    /// Sets the image conversion format.
    pub fn with_image_conversion(&mut self, conversion: ImageConversion)
        ensures
            *final(self) == (StorageParameters {
                image: ImageParameters { conversion, ..old(self).image },
                ..*old(self)
            }),
    {
        self.image.conversion = conversion;
    }

    /// Sets the target dimensions.
    pub fn with_image_resize(&mut self, height: Option<u32>, width: Option<u32>)
        ensures
            *final(self) == (StorageParameters {
                image: ImageParameters { resize: ImageResize { height, width }, ..old(self).image },
                ..*old(self)
            }),
    {
        self.image.resize = ImageResize { height, width };
    }
}

/// Gzip with lossy image compression, no conversion and no resize.
pub open spec fn compressed_lossy_parameters() -> StorageParameters {
    StorageParameters {
        compression: Compression::Gzip,
        image: ImageParameters {
            compression: ImageCompression::Lossy,
            conversion: ImageConversion::NoConversion,
            resize: ImageResize { height: None, width: None },
        },
    }
}

/// Query parameters for a raw upload, controlling compression and image
/// processing. All are optional; the default is gzip with lossy image
/// compression.
#[derive(Debug)]
pub struct PostUploadParams {
    /// Enable gzip compression. Defaults to true.
    pub compression: Option<bool>,
    /// Image compression mode: "none", "lossless", "lossy", "auto". Defaults to "lossy".
    pub image_compression: Option<String>,
    /// Image conversion format: "none", "webp", "jpeg", "png", "tiff". Defaults to no conversion.
    pub image_conversion: Option<String>,
    /// Desired image height for resizing.
    pub image_height: Option<u32>,
    /// Desired image width for resizing.
    pub image_width: Option<u32>,
}

/// The image compression a query value names; anything unknown is lossy.
pub open spec fn image_compression_named(name: Seq<char>) -> ImageCompression {
    if name == "none"@ {
        ImageCompression::NoCompression
    } else if name == "lossless"@ {
        ImageCompression::Lossless
    } else if name == "auto"@ {
        ImageCompression::Auto
    } else {
        ImageCompression::Lossy
    }
}

/// The image conversion a query value names; anything unknown converts
/// nothing.
pub open spec fn image_conversion_named(name: Seq<char>) -> ImageConversion {
    if name == "webp"@ {
        ImageConversion::Webp
    } else if name == "jpeg"@ {
        ImageConversion::Jpeg
    } else if name == "png"@ {
        ImageConversion::Png
    } else if name == "tiff"@ {
        ImageConversion::Tiff
    } else {
        ImageConversion::NoConversion
    }
}

/// The storage parameters a query asks for.
pub open spec fn requested_parameters(p: PostUploadParams) -> StorageParameters {
    let base = compressed_lossy_parameters();
    StorageParameters {
        compression: if p.compression == Some(false) {
            Compression::NoCompression
        } else {
            Compression::Gzip
        },
        image: ImageParameters {
            compression: match p.image_compression {
                Some(name) => image_compression_named(name@),
                None => base.image.compression,
            },
            conversion: match p.image_conversion {
                Some(name) => image_conversion_named(name@),
                None => base.image.conversion,
            },
            resize: if p.image_height is Some || p.image_width is Some {
                ImageResize { height: p.image_height, width: p.image_width }
            } else {
                base.image.resize
            },
        },
    }
}

impl PostUploadParams {
    /// The storage parameters the query asks for: gzip unless it is turned
    /// off, the named image compression and conversion, and a resize when
    /// either side is given.
    pub fn into_storage_parameters(self) -> (params: StorageParameters)
        ensures
            params == requested_parameters(self),
    {
        let mut params = StorageParameters::compressed_lossy();
        if let Some(false) = self.compression {
            params.compression = Compression::NoCompression;
        }
        if let Some(ref ic) = self.image_compression {
            let compression = if same_text(ic.as_str(), "none") {
                ImageCompression::NoCompression
            } else if same_text(ic.as_str(), "lossless") {
                ImageCompression::Lossless
            } else if same_text(ic.as_str(), "auto") {
                ImageCompression::Auto
            } else {
                ImageCompression::Lossy
            };
            params.with_image_compression(compression);
        }
        if let Some(ref conv) = self.image_conversion {
            let conversion = if same_text(conv.as_str(), "webp") {
                ImageConversion::Webp
            } else if same_text(conv.as_str(), "jpeg") {
                ImageConversion::Jpeg
            } else if same_text(conv.as_str(), "png") {
                ImageConversion::Png
            } else if same_text(conv.as_str(), "tiff") {
                ImageConversion::Tiff
            } else {
                ImageConversion::NoConversion
            };
            params.with_image_conversion(conversion);
        }
        if self.image_height.is_some() || self.image_width.is_some() {
            params.with_image_resize(self.image_height, self.image_width);
        }
        params
    }
}

/// The lossy pass every uploaded image goes through before gzip.
pub fn lossy_image_parameters() -> (p: ImageParameters)
    ensures
        p == (ImageParameters {
            compression: ImageCompression::Lossy,
            conversion: ImageConversion::NoConversion,
            resize: ImageResize { height: None, width: None },
        }),
{
    ImageParameters {
        compression: ImageCompression::Lossy,
        conversion: ImageConversion::NoConversion,
        resize: ImageResize { height: None, width: None },
    }
}

/// The thumbnail of an image: lossy WebP, `THUMBNAIL_WIDTH` pixels wide.
pub fn thumbnail_parameters() -> (p: ImageParameters)
    ensures
        p == (ImageParameters {
            compression: ImageCompression::Lossy,
            conversion: ImageConversion::Webp,
            resize: ImageResize { height: None, width: Some(crate::file::THUMBNAIL_WIDTH) },
        }),
{
    ImageParameters {
        compression: ImageCompression::Lossy,
        conversion: ImageConversion::Webp,
        resize: ImageResize { height: None, width: Some(crate::file::THUMBNAIL_WIDTH) },
    }
}

} // verus!
