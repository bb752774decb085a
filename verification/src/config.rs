//! Render configuration: output format, scene choice, size and sampling.
//!
//! A configuration arrives as plain strings and numbers.  The two string
//! fields are resolved here, case-insensitively, into the closed sets of
//! supported output formats and named scenes; an unrecognized name is a
//! configuration error reported before any rendering starts, never a
//! silent default.

use vstd::prelude::*;
use crate::frame::Frame;

verus! {

/// The supported output encodings.
#[derive(Debug, Clone, Copy, PartialEq, Eq, Structural)]
pub enum OutputFormat {
    Png,
    Jpeg,
    Gif,
    Webp,
    Bmp,
    Ico,
}

/// The named scenes the renderer can build.
#[derive(Debug, Clone, Copy, PartialEq, Eq, Structural)]
pub enum SceneKind {
    Empty,
    Sphere,
    Spheres,
    RandomScene,
    TwoSpheres,
    TwoPerlinSpheres,
}

/// A configuration value that cannot be used.
#[derive(Debug, Clone, PartialEq, Eq)]
pub enum ConfigError {
    /// The output format is not a supported name.  Carries the name as it
    /// was matched, upper-cased.
    UnknownFormat(String),
    /// The scene name is unknown.  Carries the name as it was matched,
    /// lower-cased.
    UnknownScene(String),
}

/// The upper-case form of a string, as the standard library folds it.
pub uninterp spec fn upper_of(s: Seq<char>) -> Seq<char>;

/// The lower-case form of a string, as the standard library folds it.
pub uninterp spec fn lower_of(s: Seq<char>) -> Seq<char>;

/// Relies on str::to_uppercase: the result is a function of the characters
/// alone.
#[verifier::external_body]
fn to_upper(s: &String) -> (r: String)
    ensures
        r@ == upper_of(s@),
{
    s.to_uppercase()
}

/// Relies on str::to_lowercase: the result is a function of the characters
/// alone.
#[verifier::external_body]
fn to_lower(s: &String) -> (r: String)
    ensures
        r@ == lower_of(s@),
{
    s.to_lowercase()
}

/// The output format a (already upper-cased) name denotes, if any.
pub open spec fn spec_format_of(s: Seq<char>) -> Option<OutputFormat> {
    if s == "PNG"@ {
        Some(OutputFormat::Png)
    } else if s == "JPG"@ {
        Some(OutputFormat::Jpeg)
    } else if s == "JPEG"@ {
        Some(OutputFormat::Jpeg)
    } else if s == "GIF"@ {
        Some(OutputFormat::Gif)
    } else if s == "WEBP"@ {
        Some(OutputFormat::Webp)
    } else if s == "BMP"@ {
        Some(OutputFormat::Bmp)
    } else if s == "ICO"@ {
        Some(OutputFormat::Ico)
    } else {
        None
    }
}

/// The scene a (already lower-cased) name denotes, if any.
pub open spec fn spec_scene_of(s: Seq<char>) -> Option<SceneKind> {
    if s == "empty"@ {
        Some(SceneKind::Empty)
    } else if s == "sphere"@ {
        Some(SceneKind::Sphere)
    } else if s == "spheres"@ {
        Some(SceneKind::Spheres)
    } else if s == "random_scene"@ {
        Some(SceneKind::RandomScene)
    } else if s == "two_spheres"@ {
        Some(SceneKind::TwoSpheres)
    } else if s == "two_perlin_spheres"@ {
        Some(SceneKind::TwoPerlinSpheres)
    } else {
        None
    }
}

/// Resolve an upper-cased format name.  Exactly the seven names `PNG`,
/// `JPG`, `JPEG`, `GIF`, `WEBP`, `BMP` and `ICO` are accepted; anything
/// else is an error carrying the offending name.
pub fn parse_format(name: String) -> (r: Result<OutputFormat, ConfigError>)
    ensures
        r is Ok <==> spec_format_of(name@) is Some,
        (r matches Ok(f) ==> Some(f) == spec_format_of(name@)),
        (r matches Err(e) ==> e matches ConfigError::UnknownFormat(s) && s@ == name@),
{
    if name == "PNG".to_owned() {
        Ok(OutputFormat::Png)
    } else if name == "JPG".to_owned() {
        Ok(OutputFormat::Jpeg)
    } else if name == "JPEG".to_owned() {
        Ok(OutputFormat::Jpeg)
    } else if name == "GIF".to_owned() {
        Ok(OutputFormat::Gif)
    } else if name == "WEBP".to_owned() {
        Ok(OutputFormat::Webp)
    } else if name == "BMP".to_owned() {
        Ok(OutputFormat::Bmp)
    } else if name == "ICO".to_owned() {
        Ok(OutputFormat::Ico)
    } else {
        Err(ConfigError::UnknownFormat(name))
    }
}

/// Resolve a lower-cased scene name.  Exactly the six scene names are
/// accepted; anything else is an error carrying the offending name.
pub fn parse_scene(name: String) -> (r: Result<SceneKind, ConfigError>)
    ensures
        r is Ok <==> spec_scene_of(name@) is Some,
        (r matches Ok(k) ==> Some(k) == spec_scene_of(name@)),
        (r matches Err(e) ==> e matches ConfigError::UnknownScene(s) && s@ == name@),
{
    if name == "empty".to_owned() {
        Ok(SceneKind::Empty)
    } else if name == "sphere".to_owned() {
        Ok(SceneKind::Sphere)
    } else if name == "spheres".to_owned() {
        Ok(SceneKind::Spheres)
    } else if name == "random_scene".to_owned() {
        Ok(SceneKind::RandomScene)
    } else if name == "two_spheres".to_owned() {
        Ok(SceneKind::TwoSpheres)
    } else if name == "two_perlin_spheres".to_owned() {
        Ok(SceneKind::TwoPerlinSpheres)
    } else {
        Err(ConfigError::UnknownScene(name))
    }
}

/// A run's configuration.
#[derive(Debug, Clone)]
pub struct Config {
    /// The output format name, matched case-insensitively by `format`.
    pub format: String,
    /// The output path.
    pub out: String,
    /// The name of the scene to render, matched case-insensitively by
    /// `scene`.
    pub scene: String,
    /// The number of samples to take per pixel.
    pub samples: u32,
    /// The render width in pixels.
    pub width: u32,
    /// The render height in pixels.
    pub height: u32,
}

impl Config {
    /// The default configuration.
    pub fn default() -> (c: Config)
        ensures
            c.format@ == "PNG"@,
            c.out@ == "./out.png"@,
            c.scene@ == "random_scene"@,
            c.samples == 1,
            c.width == 400,
            c.height == 200,
    {
        Config {
            format: "PNG".to_owned(),
            out: "./out.png".to_owned(),
            scene: "random_scene".to_owned(),
            samples: 1,
            width: 400,
            height: 200,
        }
    }

    /// The output format, resolved case-insensitively from the `format`
    /// field; an unsupported name is an error.
    pub fn format(&self) -> (r: Result<OutputFormat, ConfigError>)
        ensures
            r is Ok <==> spec_format_of(upper_of(self.format@)) is Some,
            (r matches Ok(f) ==> Some(f) == spec_format_of(upper_of(self.format@))),
            (r matches Err(e) ==> e matches ConfigError::UnknownFormat(s) && s@ == upper_of(
                self.format@,
            )),
    {
        parse_format(to_upper(&self.format))
    }

    /// The scene to render, resolved case-insensitively from the `scene`
    /// field; an unknown name is an error.
    pub fn scene(&self) -> (r: Result<SceneKind, ConfigError>)
        ensures
            r is Ok <==> spec_scene_of(lower_of(self.scene@)) is Some,
            (r matches Ok(k) ==> Some(k) == spec_scene_of(lower_of(self.scene@))),
            (r matches Err(e) ==> e matches ConfigError::UnknownScene(s) && s@ == lower_of(
                self.scene@,
            )),
    {
        parse_scene(to_lower(&self.scene))
    }

    /// The frame this configuration renders into.
    pub fn frame(&self) -> (f: Frame)
        requires
            self.width as int * self.height as int <= usize::MAX as int,
        ensures
            f.width == self.width,
            f.height == self.height,
            f.samples == self.samples,
            f.inv(),
    {
        Frame::new(self.width, self.height, self.samples)
    }
}

} // verus!
