//! Markdown rendering (`pulldown-cmark`) and HTML sanitizing (`ammonia`).
use std::collections::{HashMap, HashSet};
use vstd::prelude::*;

verus! {

/// `pulldown_cmark::Options::ENABLE_STRIKETHROUGH`, the one extension nbsp turns on.
pub const ENABLE_STRIKETHROUGH: u32 = 8;

/// The HTML that `pulldown_cmark::html::push_html` writes for the events of
/// `Parser::new_ext(markdown, Options::from_bits_truncate(options))`.
pub uninterp spec fn commonmark_html(markdown: Seq<char>, options: u32) -> Seq<char>;

/// Renders Markdown to HTML with `pulldown_cmark` (`Parser::new_ext` and `html::push_html`).
///
/// Trusted: the result is `commonmark_html` of the text and the option bits.
#[verifier::external_body]
fn commonmark_to_html(markdown: &str, options: u32) -> (html: String)
    ensures
        html@ == commonmark_html(markdown@, options),
{
    let parser = pulldown_cmark::Parser::new_ext(
        markdown,
        pulldown_cmark::Options::from_bits_truncate(options),
    );
    let mut html = String::new();
    pulldown_cmark::html::push_html(&mut html, parser);
    html
}

/// What HTML survives sanitizing: the settings of an `ammonia::Builder`.
pub struct SanitizePolicy {
    /// Tags that are kept (`Builder::tags`)
    pub tags: Vec<&'static str>,
    /// Tags that are removed together with their content (`Builder::clean_content_tags`)
    pub clean_content_tags: Vec<&'static str>,
    /// Attributes kept on every tag (`Builder::generic_attributes`)
    pub generic_attributes: Vec<&'static str>,
    /// Attributes kept on particular tags (`Builder::tag_attributes`)
    pub tag_attributes: Vec<(&'static str, Vec<&'static str>)>,
    /// URL schemes kept in links (`Builder::url_schemes`)
    pub url_schemes: Vec<&'static str>,
    /// The `rel` attribute set on every link (`Builder::link_rel`)
    pub link_rel: Option<&'static str>,
}

/// The texts of a list of strings.
pub open spec fn texts(v: Seq<&'static str>) -> Seq<Seq<char>> {
    v.map_values(|s: &'static str| s@)
}

/// The texts of a list of (tag, attributes) pairs.
pub open spec fn tag_attribute_texts(v: Seq<(&'static str, Vec<&'static str>)>) -> Seq<
    (Seq<char>, Seq<Seq<char>>),
> {
    v.map_values(|p: (&'static str, Vec<&'static str>)| (p.0@, texts(p.1@)))
}

/// The HTML that `ammonia::Builder::clean` gives for `html` (turned into a string), on a
/// `Builder::new()` given these tags, content-cleaned tags, generic attributes, tag attributes,
/// URL schemes and link `rel`.
pub uninterp spec fn ammonia_clean(
    tags: Seq<Seq<char>>,
    clean_content_tags: Seq<Seq<char>>,
    generic_attributes: Seq<Seq<char>>,
    tag_attributes: Seq<(Seq<char>, Seq<Seq<char>>)>,
    url_schemes: Seq<Seq<char>>,
    link_rel: Option<Seq<char>>,
    html: Seq<char>,
) -> Seq<char>;

impl SanitizePolicy {
    /// The settings are free of the contradictions for which `Builder::clean` panics: a
    /// content-cleaned tag that is also kept or has kept attributes, and a `rel` attribute
    /// that users may set while `link_rel` sets it on every link.
    pub open spec fn consistent(&self) -> bool {
        let tags = texts(self.tags@);
        let cleaned = texts(self.clean_content_tags@);
        let generic = texts(self.generic_attributes@);
        let per_tag = tag_attribute_texts(self.tag_attributes@);
        &&& forall|i: int| 0 <= i < cleaned.len() ==> !tags.contains(#[trigger] cleaned[i])
        &&& forall|i: int, j: int|
            0 <= i < cleaned.len() && 0 <= j < per_tag.len() ==> #[trigger] cleaned[i]
                != #[trigger] per_tag[j].0
        &&& self.link_rel is Some ==> !generic.contains("rel"@)
        &&& self.link_rel is Some ==> forall|j: int|
            0 <= j < per_tag.len() ==> !(#[trigger] per_tag[j]).1.contains("rel"@)
    }

    /// What sanitizing `html` under these settings gives.
    pub open spec fn clean_spec(&self, html: Seq<char>) -> Seq<char> {
        ammonia_clean(
            texts(self.tags@),
            texts(self.clean_content_tags@),
            texts(self.generic_attributes@),
            tag_attribute_texts(self.tag_attributes@),
            texts(self.url_schemes@),
            match self.link_rel {
                Some(r) => Some(r@),
                None => None,
            },
            html,
        )
    }
}

/// Sanitizes HTML with an `ammonia::Builder` configured from `policy`.
///
/// Trusted: the result is `ammonia_clean` of the settings and the HTML. The `requires` leaves
/// out the settings for which `Builder::clean` panics.
#[verifier::external_body]
fn ammonia_sanitize(policy: &SanitizePolicy, html: &str) -> (clean: String)
    requires
        policy.consistent(),
    ensures
        clean@ == ammonia_clean(
            texts(policy.tags@),
            texts(policy.clean_content_tags@),
            texts(policy.generic_attributes@),
            tag_attribute_texts(policy.tag_attributes@),
            texts(policy.url_schemes@),
            match policy.link_rel {
                Some(r) => Some(r@),
                None => None,
            },
            html@,
        ),
{
    let mut builder = ammonia::Builder::new();
    builder
        .tags(HashSet::from_iter(policy.tags.iter().copied()))
        .clean_content_tags(HashSet::from_iter(policy.clean_content_tags.iter().copied()))
        .generic_attributes(HashSet::from_iter(policy.generic_attributes.iter().copied()))
        .tag_attributes(HashMap::from_iter(
            policy.tag_attributes.iter().map(|(t, a)| (*t, HashSet::from_iter(a.iter().copied()))),
        ))
        .url_schemes(HashSet::from_iter(policy.url_schemes.iter().copied()))
        .link_rel(policy.link_rel);
    builder.clean(html).to_string()
}

/// The tags nbsp keeps in rendered posts.
pub open spec fn kept_tags() -> Seq<Seq<char>> {
    seq![
        "h1"@, "h2"@, "h3"@, "h4"@, "h5"@, "h6"@, "a"@, "p"@, "blockquote"@, "ol"@, "ul"@, "li"@,
        "br"@, "hr"@, "strong"@, "em"@, "del"@, "pre"@, "code"@,
    ]
}

/// The tags nbsp removes from rendered posts together with their content.
pub open spec fn removed_tags() -> Seq<Seq<char>> {
    seq!["script"@, "style"@]
}

/// The attributes nbsp keeps: only `href` on links.
pub open spec fn kept_tag_attributes() -> Seq<(Seq<char>, Seq<Seq<char>>)> {
    seq![("a"@, seq!["href"@])]
}

/// The URL schemes nbsp keeps in links.
pub open spec fn kept_url_schemes() -> Seq<Seq<char>> {
    seq!["http"@, "https"@]
}

/// The `rel` attribute nbsp puts on every link.
pub open spec fn link_rel_value() -> Seq<char> {
    "noopener noreferrer"@
}

/// The HTML nbsp shows for a Markdown post body: the CommonMark rendering (with
/// strikethrough) of the Markdown, sanitized with the settings above.
pub open spec fn rendered_markdown(markdown: Seq<char>) -> Seq<char> {
    ammonia_clean(
        kept_tags(),
        removed_tags(),
        Seq::empty(),
        kept_tag_attributes(),
        kept_url_schemes(),
        Some(link_rel_value()),
        commonmark_html(markdown, ENABLE_STRIKETHROUGH),
    )
}

/// The sanitizer settings for rendered posts.
pub fn markdown_sanitizer() -> (policy: SanitizePolicy)
    ensures
        texts(policy.tags@) == kept_tags(),
        texts(policy.clean_content_tags@) == removed_tags(),
        texts(policy.generic_attributes@) == Seq::<Seq<char>>::empty(),
        tag_attribute_texts(policy.tag_attributes@) == kept_tag_attributes(),
        texts(policy.url_schemes@) == kept_url_schemes(),
        texts(policy.url_schemes@) == seq!["http"@, "https"@],
        policy.link_rel matches Some(r) && r@ == link_rel_value(),
        policy.consistent(),
{
    let tags: Vec<&'static str> = vec![
        "h1", "h2", "h3", "h4", "h5", "h6", "a", "p", "blockquote", "ol", "ul", "li", "br", "hr",
        "strong", "em", "del", "pre", "code",
    ];
    let clean_content_tags: Vec<&'static str> = vec!["script", "style"];
    let generic_attributes: Vec<&'static str> = Vec::new();
    let link_attributes: Vec<&'static str> = vec!["href"];
    let tag_attributes: Vec<(&'static str, Vec<&'static str>)> = vec![("a", link_attributes)];
    let url_schemes: Vec<&'static str> = vec!["http", "https"];
    let policy = SanitizePolicy {
        tags,
        clean_content_tags,
        generic_attributes,
        tag_attributes,
        url_schemes,
        link_rel: Some("noopener noreferrer"),
    };
    proof {
        reveal_strlit("h1");
        reveal_strlit("h2");
        reveal_strlit("h3");
        reveal_strlit("h4");
        reveal_strlit("h5");
        reveal_strlit("h6");
        reveal_strlit("a");
        reveal_strlit("p");
        reveal_strlit("blockquote");
        reveal_strlit("ol");
        reveal_strlit("ul");
        reveal_strlit("li");
        reveal_strlit("br");
        reveal_strlit("hr");
        reveal_strlit("strong");
        reveal_strlit("em");
        reveal_strlit("del");
        reveal_strlit("pre");
        reveal_strlit("code");
        reveal_strlit("script");
        reveal_strlit("style");
        reveal_strlit("href");
        reveal_strlit("rel");
        assert(texts(policy.tags@) =~= kept_tags());
        assert(texts(policy.clean_content_tags@) =~= removed_tags());
        assert(texts(policy.generic_attributes@) =~= Seq::<Seq<char>>::empty());
        assert(texts(link_attributes@) =~= seq!["href"@]);
        assert(tag_attribute_texts(policy.tag_attributes@) =~= kept_tag_attributes());
        assert(texts(policy.url_schemes@) =~= kept_url_schemes());
        assert forall|i: int| 0 <= i < kept_tags().len() implies kept_tags()[i] != "script"@
            && kept_tags()[i] != "style"@ by {
            let t = kept_tags()[i];
            if t == "script"@ || t == "style"@ {
                assert(t[0] == 's' && (t[1] == 'c' || t[1] == 't') && t.len() >= 5);
            }
        }
        assert("href"@ != "rel"@) by {
            assert("href"@.len() != "rel"@.len());
        }
        assert(!seq!["href"@].contains("rel"@)) by {
            assert(seq!["href"@][0] == "href"@);
        }
    }
    policy
}

/// Render a Markdown string to HTML and sanitize the resulting HTML
pub fn render_markdown(markdown: &str) -> (html: String)
    ensures
        html@ == rendered_markdown(markdown@),
{
    let unsafe_html = commonmark_to_html(markdown, ENABLE_STRIKETHROUGH);
    let policy = markdown_sanitizer();
    ammonia_sanitize(&policy, unsafe_html.as_str())
}

/// What a post body renders to: its CommonMark rendering with strikethrough (option bit 8) and
/// nothing else, sanitized so that only the headings, links, paragraphs, quotes, lists, breaks,
/// rules, emphasis, strikethrough and code tags stay, `script` and `style` go with their content,
/// no attribute stays but `href` on links, links keep only `http` and `https` URLs, and every link
/// gets `rel="noopener noreferrer"`.
pub proof fn post_sanitizer_policy(markdown: Seq<char>)
    ensures
        rendered_markdown(markdown) == ammonia_clean(
            seq![
                "h1"@, "h2"@, "h3"@, "h4"@, "h5"@, "h6"@, "a"@, "p"@, "blockquote"@, "ol"@,
                "ul"@, "li"@, "br"@, "hr"@, "strong"@, "em"@, "del"@, "pre"@, "code"@,
            ],
            seq!["script"@, "style"@],
            Seq::<Seq<char>>::empty(),
            seq![("a"@, seq!["href"@])],
            seq!["http"@, "https"@],
            Some("noopener noreferrer"@),
            commonmark_html(markdown, 8),
        ),
        kept_url_schemes().contains("http"@),
        kept_url_schemes().contains("https"@),
{
    assert(kept_url_schemes()[0] == "http"@);
    assert(kept_url_schemes()[1] == "https"@);
}

} // verus!
