//! Outbound rich-message envelopes.
//!
//! A reply is an envelope of optional parts: title, description, color,
//! author block, thumbnail, footer and image. Envelopes are built through
//! [`EnvelopeBuilder`], whose `build` validates every image URL (the
//! platform only accepts `http:` and `https:` sources) and the color
//! (non-zero, 24-bit RGB). The two replies the bot ever sends are built
//! by [`trinity_envelope`] and [`salvation_envelope`] from fixed texts;
//! their validity is proved, so building them cannot fail.

use vstd::prelude::*;
use vstd::string::*;

verus! {

/// Whether `p` is a prefix of `s`.
pub open spec fn spec_has_prefix(s: Seq<char>, p: Seq<char>) -> bool {
    p.len() <= s.len() && s.subrange(0, p.len() as int) == p
}

/// Decides whether `p` is a prefix of `s`, character by character.
pub fn has_prefix(s: &str, p: &str) -> (r: bool)
    ensures
        r == spec_has_prefix(s@, p@),
{
    let n = p.unicode_len();
    let m = s.unicode_len();
    if m < n {
        return false;
    }
    let mut i: usize = 0;
    while i < n
        invariant
            n as nat == p@.len(),
            m as nat == s@.len(),
            n <= m,
            i <= n,
            forall|j: int| 0 <= j < i ==> s@[j] == p@[j],
        decreases n - i,
    {
        if s.get_char(i) != p.get_char(i) {
            proof {
                assert(s@.subrange(0, p@.len() as int)[i as int] == s@[i as int]);
            }
            return false;
        }
        i += 1;
    }
    proof {
        assert(s@.subrange(0, p@.len() as int) =~= p@);
    }
    true
}

/// Whether a URL uses a protocol the platform accepts for image sources.
pub open spec fn is_image_url(s: Seq<char>) -> bool {
    spec_has_prefix(s, "https:"@) || spec_has_prefix(s, "http:"@)
}

/// Decides [`is_image_url`].
pub fn check_image_url(url: &str) -> (r: bool)
    ensures
        r == is_image_url(url@),
{
    has_prefix(url, "https:") || has_prefix(url, "http:")
}

/// Why an envelope could not be built.
#[derive(Debug)]
pub enum EnvelopeError {
    /// An image URL does not use a supported protocol.
    UnsupportedProtocol,
    /// The color is zero, which the platform treats as no color at all.
    ColorZero,
    /// The color does not fit in 24-bit RGB.
    ColorNotRgb,
}

impl EnvelopeError {
    /// A human-readable description of the error.
    pub fn message(&self) -> (s: &'static str)
        ensures
            match self {
                EnvelopeError::UnsupportedProtocol => s@ == "an image URL uses an unsupported protocol"@,
                EnvelopeError::ColorZero => s@ == "the color may not be zero"@,
                EnvelopeError::ColorNotRgb => s@ == "the color is not a valid RGB value"@,
            },
    {
        match self {
            EnvelopeError::UnsupportedProtocol => "an image URL uses an unsupported protocol",
            EnvelopeError::ColorZero => "the color may not be zero",
            EnvelopeError::ColorNotRgb => "the color is not a valid RGB value",
        }
    }
}

/// An outbound rich message, immutable once built.
pub struct MessageEnvelope {
    pub title: Option<String>,
    pub description: Option<String>,
    pub color: Option<u32>,
    pub author_name: Option<String>,
    pub author_icon_url: Option<String>,
    pub thumbnail_url: Option<String>,
    pub footer_text: Option<String>,
    pub footer_icon_url: Option<String>,
    pub image_url: Option<String>,
}

/// Collects the parts of an envelope before validation.
pub struct EnvelopeBuilder {
    pub title: Option<String>,
    pub description: Option<String>,
    pub color: Option<u32>,
    pub author_name: Option<String>,
    pub author_icon_url: Option<String>,
    pub thumbnail_url: Option<String>,
    pub footer_text: Option<String>,
    pub footer_icon_url: Option<String>,
    pub image_url: Option<String>,
}

/// Every image URL the builder holds uses a supported protocol.
pub open spec fn sources_valid(b: EnvelopeBuilder) -> bool {
    &&& (b.author_icon_url matches Some(u) ==> is_image_url(u@))
    &&& (b.thumbnail_url matches Some(u) ==> is_image_url(u@))
    &&& (b.footer_icon_url matches Some(u) ==> is_image_url(u@))
    &&& (b.image_url matches Some(u) ==> is_image_url(u@))
}

/// The color, if set, is a non-zero 24-bit RGB value.
pub open spec fn color_valid(b: EnvelopeBuilder) -> bool {
    b.color matches Some(c) ==> 0 < c <= 0xFF_FF_FF
}

/// The envelope carries exactly the builder's parts.
pub open spec fn envelope_of(b: EnvelopeBuilder, e: MessageEnvelope) -> bool {
    &&& e.title == b.title
    &&& e.description == b.description
    &&& e.color == b.color
    &&& e.author_name == b.author_name
    &&& e.author_icon_url == b.author_icon_url
    &&& e.thumbnail_url == b.thumbnail_url
    &&& e.footer_text == b.footer_text
    &&& e.footer_icon_url == b.footer_icon_url
    &&& e.image_url == b.image_url
}

impl EnvelopeBuilder {
    /// A builder with every part absent.
    pub fn new() -> (b: Self)
        ensures
            b.title is None,
            b.description is None,
            b.color is None,
            b.author_name is None,
            b.author_icon_url is None,
            b.thumbnail_url is None,
            b.footer_text is None,
            b.footer_icon_url is None,
            b.image_url is None,
    {
        EnvelopeBuilder {
            title: None,
            description: None,
            color: None,
            author_name: None,
            author_icon_url: None,
            thumbnail_url: None,
            footer_text: None,
            footer_icon_url: None,
            image_url: None,
        }
    }

    /// Sets the title.
    pub fn title(self, title: String) -> (b: Self)
        ensures
            b == (EnvelopeBuilder { title: Some(title), ..self }),
    {
        EnvelopeBuilder { title: Some(title), ..self }
    }

    /// Sets the description.
    pub fn description(self, description: String) -> (b: Self)
        ensures
            b == (EnvelopeBuilder { description: Some(description), ..self }),
    {
        EnvelopeBuilder { description: Some(description), ..self }
    }

    /// Sets the color.
    pub fn color(self, color: u32) -> (b: Self)
        ensures
            b == (EnvelopeBuilder { color: Some(color), ..self }),
    {
        EnvelopeBuilder { color: Some(color), ..self }
    }

    /// Sets the author block: a name and an icon URL.
    pub fn author(self, name: String, icon_url: String) -> (b: Self)
        ensures
            b == (EnvelopeBuilder {
                author_name: Some(name),
                author_icon_url: Some(icon_url),
                ..self
            }),
    {
        EnvelopeBuilder { author_name: Some(name), author_icon_url: Some(icon_url), ..self }
    }

    /// Sets the thumbnail URL.
    pub fn thumbnail(self, url: String) -> (b: Self)
        ensures
            b == (EnvelopeBuilder { thumbnail_url: Some(url), ..self }),
    {
        EnvelopeBuilder { thumbnail_url: Some(url), ..self }
    }

    /// Sets the footer block: a text and an icon URL.
    pub fn footer(self, text: String, icon_url: String) -> (b: Self)
        ensures
            b == (EnvelopeBuilder {
                footer_text: Some(text),
                footer_icon_url: Some(icon_url),
                ..self
            }),
    {
        EnvelopeBuilder { footer_text: Some(text), footer_icon_url: Some(icon_url), ..self }
    }

    /// Sets the image URL.
    pub fn image(self, url: String) -> (b: Self)
        ensures
            b == (EnvelopeBuilder { image_url: Some(url), ..self }),
    {
        EnvelopeBuilder { image_url: Some(url), ..self }
    }

    /// Validates the parts and produces the envelope. Fails exactly when
    /// an image URL has an unsupported protocol or the color is out of
    /// range; on success the envelope carries exactly the given parts.
    pub fn build(self) -> (r: Result<MessageEnvelope, EnvelopeError>)
        ensures
            r is Ok <==> sources_valid(self) && color_valid(self),
            r matches Ok(e) ==> envelope_of(self, e),
            r matches Err(err) ==> (err is UnsupportedProtocol <==> !sources_valid(self)),
            r matches Err(err) ==> (err is ColorZero <==> sources_valid(self) && self.color == Some(
                0u32,
            )),
            r matches Err(err) ==> (err is ColorNotRgb <==> sources_valid(self)
                && (self.color matches Some(c) && c > 0xFF_FF_FF)),
    {
        if let Some(u) = &self.author_icon_url {
            if !check_image_url(u.as_str()) {
                return Err(EnvelopeError::UnsupportedProtocol);
            }
        }
        if let Some(u) = &self.thumbnail_url {
            if !check_image_url(u.as_str()) {
                return Err(EnvelopeError::UnsupportedProtocol);
            }
        }
        if let Some(u) = &self.footer_icon_url {
            if !check_image_url(u.as_str()) {
                return Err(EnvelopeError::UnsupportedProtocol);
            }
        }
        if let Some(u) = &self.image_url {
            if !check_image_url(u.as_str()) {
                return Err(EnvelopeError::UnsupportedProtocol);
            }
        }
        if let Some(c) = self.color {
            if c == 0 {
                return Err(EnvelopeError::ColorZero);
            }
            if c > 0xFF_FF_FF {
                return Err(EnvelopeError::ColorNotRgb);
            }
        }
        Ok(MessageEnvelope {
            title: self.title,
            description: self.description,
            color: self.color,
            author_name: self.author_name,
            author_icon_url: self.author_icon_url,
            thumbnail_url: self.thumbnail_url,
            footer_text: self.footer_text,
            footer_icon_url: self.footer_icon_url,
            image_url: self.image_url,
        })
    }
}

} // verus!
