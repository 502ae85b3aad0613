//! The two fixed replies the bot can send.
//!
//! Both envelopes are filled from constant texts and image URLs; a proof
//! shows the constants pass envelope validation, so construction never
//! fails at run time.

use vstd::prelude::*;
use vstd::pervasive::unreached;
use crate::envelope::{
    is_image_url, spec_has_prefix, EnvelopeBuilder, MessageEnvelope,
};

verus! {

/// The color of both replies.
pub const REPLY_COLOR: u32 = 0x00D6_8717;

/// The text of the trinity reply.
pub open spec fn trinity_description() -> Seq<char> {
    "Simply, the trinity is a core doctrine that we hold too, that simply outlines the Godhood and how the divine essence is distributed to the three hypostasis. Which thus, creates the hypostatic union, that equates each hypostasis, together within essence. Christ (A), is God, whilst the Father (B) is God, and the Holy Spirit (C) being God. All sharing the common nature and essence of divine relativity. Although, one hypostasis holding a common nature with the human nature, whilst also upholding the divine nature. Which is (Christ). But, the trinity has distinct persons, which in sense, the father is distinct in reference to the son and holy spirit. All having properties and difference of person hood, which needs to be emphasized because of the heresy of modalism. We don’t want to fall into a modal collapse, which is a heresy. Or getting into Nestorianism, which is easy to fall into when discussing the hypostatic union. As Nestorius, brought up the ideal of Christ holding two natures, which is completely illogical. For Christ to hold two natures, means that he’s two beings, which undermines the trinity and hypostatic union, which evidentially falls into 3 being apart of the holy divine logos."@
}

/// The author name of the trinity reply.
pub open spec fn trinity_author_name() -> Seq<char> {
    "Trinity"@
}

/// The footer text of the trinity reply.
pub open spec fn trinity_footer_text() -> Seq<char> {
    "AL Library"@
}

/// The icon and thumbnail URL of the trinity reply.
pub open spec fn trinity_icon_url() -> Seq<char> {
    "https://previews.123rf.com/images/ivandbajo/ivandbajo1903/ivandbajo190300252/118779642-trinity-logo-design-inspiration-trinity-love-logo-isolated-on-white-background.jpg"@
}

/// The title of the salvation reply.
pub open spec fn salvation_title() -> Seq<char> {
    "We are saved through faith"@
}

/// The text of the salvation reply.
pub open spec fn salvation_description() -> Seq<char> {
    "Salvation is NOT by works, but through faith. Yes, our salvation does come by grace received through faith. However, this does not mean that good works are irrelevant to salvation, our righteous works are considered filthy rags. But remember, faith with works is dead. Therefore, believe Jesus Christ and accept Him as your Lord and Savior, you will be saved."@
}

/// The image URL of the salvation reply.
pub open spec fn salvation_image_url() -> Seq<char> {
    "https://images-ext-1.discordapp.net/external/WLPDWDRVCAxjluCWyZahb6BMW2FDTdO5EN-ahouGA70/http/www.sfltimes.com/wp-content/uploads/2015/03/Just-a-Closer-Walk-with-Jesus.jpg?width=945&height=577"@
}

/// The envelope is exactly the trinity reply: no title and no image; the
/// fixed description, color, author block, thumbnail and footer block.
pub open spec fn is_trinity_envelope(e: MessageEnvelope) -> bool {
    &&& e.title is None
    &&& e.description matches Some(d) && d@ == trinity_description()
    &&& e.color == Some(REPLY_COLOR)
    &&& e.author_name matches Some(n) && n@ == trinity_author_name()
    &&& e.author_icon_url matches Some(u) && u@ == trinity_icon_url()
    &&& e.thumbnail_url matches Some(u) && u@ == trinity_icon_url()
    &&& e.footer_text matches Some(t) && t@ == trinity_footer_text()
    &&& e.footer_icon_url matches Some(u) && u@ == trinity_icon_url()
    &&& e.image_url is None
}

/// The envelope is exactly the salvation reply: the fixed title,
/// description, color and image; no author block, thumbnail or footer.
pub open spec fn is_salvation_envelope(e: MessageEnvelope) -> bool {
    &&& e.title matches Some(t) && t@ == salvation_title()
    &&& e.description matches Some(d) && d@ == salvation_description()
    &&& e.color == Some(REPLY_COLOR)
    &&& e.author_name is None
    &&& e.author_icon_url is None
    &&& e.thumbnail_url is None
    &&& e.footer_text is None
    &&& e.footer_icon_url is None
    &&& e.image_url matches Some(u) && u@ == salvation_image_url()
}

/// The fixed image URLs of both replies use a supported protocol.
proof fn lemma_reply_urls_valid()
    ensures
        is_image_url(trinity_icon_url()),
        is_image_url(salvation_image_url()),
{
    reveal_strlit("https:");
    reveal_strlit(
        "https://previews.123rf.com/images/ivandbajo/ivandbajo1903/ivandbajo190300252/118779642-trinity-logo-design-inspiration-trinity-love-logo-isolated-on-white-background.jpg",
    );
    reveal_strlit(
        "https://images-ext-1.discordapp.net/external/WLPDWDRVCAxjluCWyZahb6BMW2FDTdO5EN-ahouGA70/http/www.sfltimes.com/wp-content/uploads/2015/03/Just-a-Closer-Walk-with-Jesus.jpg?width=945&height=577",
    );
    assert(trinity_icon_url().subrange(0, 6) =~= "https:"@);
    assert(salvation_image_url().subrange(0, 6) =~= "https:"@);
    assert(spec_has_prefix(trinity_icon_url(), "https:"@));
    assert(spec_has_prefix(salvation_image_url(), "https:"@));
}

/// Builds the trinity reply from its fixed parts; cannot fail, since the
/// parts are proved valid.
pub fn trinity_envelope() -> (e: MessageEnvelope)
    ensures
        is_trinity_envelope(e),
{
    let icon = "https://previews.123rf.com/images/ivandbajo/ivandbajo1903/ivandbajo190300252/118779642-trinity-logo-design-inspiration-trinity-love-logo-isolated-on-white-background.jpg";
    let builder = EnvelopeBuilder::new()
        .color(REPLY_COLOR)
        .description(
            "Simply, the trinity is a core doctrine that we hold too, that simply outlines the Godhood and how the divine essence is distributed to the three hypostasis. Which thus, creates the hypostatic union, that equates each hypostasis, together within essence. Christ (A), is God, whilst the Father (B) is God, and the Holy Spirit (C) being God. All sharing the common nature and essence of divine relativity. Although, one hypostasis holding a common nature with the human nature, whilst also upholding the divine nature. Which is (Christ). But, the trinity has distinct persons, which in sense, the father is distinct in reference to the son and holy spirit. All having properties and difference of person hood, which needs to be emphasized because of the heresy of modalism. We don’t want to fall into a modal collapse, which is a heresy. Or getting into Nestorianism, which is easy to fall into when discussing the hypostatic union. As Nestorius, brought up the ideal of Christ holding two natures, which is completely illogical. For Christ to hold two natures, means that he’s two beings, which undermines the trinity and hypostatic union, which evidentially falls into 3 being apart of the holy divine logos.".to_owned(),
        )
        .author("Trinity".to_owned(), icon.to_owned())
        .thumbnail(icon.to_owned())
        .footer("AL Library".to_owned(), icon.to_owned());
    proof {
        lemma_reply_urls_valid();
    }
    match builder.build() {
        Ok(e) => e,
        Err(_) => unreached(),
    }
}

/// Builds the salvation reply from its fixed parts; cannot fail, since
/// the parts are proved valid.
pub fn salvation_envelope() -> (e: MessageEnvelope)
    ensures
        is_salvation_envelope(e),
{
    let builder = EnvelopeBuilder::new()
        .title("We are saved through faith".to_owned())
        .color(REPLY_COLOR)
        .description(
            "Salvation is NOT by works, but through faith. Yes, our salvation does come by grace received through faith. However, this does not mean that good works are irrelevant to salvation, our righteous works are considered filthy rags. But remember, faith with works is dead. Therefore, believe Jesus Christ and accept Him as your Lord and Savior, you will be saved.".to_owned(),
        )
        .image(
            "https://images-ext-1.discordapp.net/external/WLPDWDRVCAxjluCWyZahb6BMW2FDTdO5EN-ahouGA70/http/www.sfltimes.com/wp-content/uploads/2015/03/Just-a-Closer-Walk-with-Jesus.jpg?width=945&height=577".to_owned(),
        );
    proof {
        lemma_reply_urls_valid();
    }
    match builder.build() {
        Ok(e) => e,
        Err(_) => unreached(),
    }
}

} // verus!
