//! The guide site's render cache.
//!
//! Each page of the site is static content pushed through up to two levels
//! of template: a markdown body becomes an HTML fragment, a guide body is
//! wrapped in the guide template, and every page body is wrapped in the main
//! page template.  Rendering is memoized: the cache maps each source string
//! to the HTML previously rendered from it, so each distinct body is
//! rendered once.  The store owns its caches explicitly and is shared by the
//! server's request handlers; the templating and markdown engines sit behind
//! trusted wrappers, and everything around them is verified: a cached entry
//! always equals what rendering its key would produce.

use vstd::prelude::*;

use crate::bytes::{bytes_eq, copy_bytes};

verus! {

/// What the templating engine produces for a given template and body, with
/// the body bound to the template's `body` tag.
pub uninterp spec fn template_expansion(template: Seq<u8>, body: Seq<u8>) -> Seq<u8>;

/// The HTML fragment the markdown engine produces for a markdown string.
pub uninterp spec fn markdown_html(markdown: Seq<u8>) -> Seq<u8>;

/// Whether the templating engine accepts a template and body: both strings
/// decode as UTF-8 and the template compiles and renders.  For plain
/// templates this depends on the two strings alone.
pub uninterp spec fn expansion_ok(template: Seq<u8>, body: Seq<u8>) -> bool;

/// Whether a byte string is well-formed UTF-8.
pub uninterp spec fn valid_utf8(s: Seq<u8>) -> bool;

/// An ASCII letter or digit.
pub open spec fn ascii_alnum(b: u8) -> bool {
    (48 <= b <= 57) || (65 <= b <= 90) || (97 <= b <= 122)
}

/// What may follow an opening `{{` (byte 123 is `{`): the name of a plain
/// tag, escaped (`{{name`) or unescaped (`{{{name`), beginning with a
/// letter or digit.
pub open spec fn plain_tag_open(s: Seq<u8>, j: int) -> bool {
    j < s.len() && (ascii_alnum(s[j]) || (s[j] == 123 && j + 1 < s.len() && ascii_alnum(s[j + 1])))
}

/// Bytes `i` and `i + 1` open a tag that is not plainly named.
pub open spec fn bad_tag_at(s: Seq<u8>, i: int) -> bool {
    s[i] == 123 && s[i + 1] == 123 && !plain_tag_open(s, i + 2)
}

/// Every `{{` in the template opens a plainly named tag.  This keeps the
/// engine's work inside the two strings and away from its internal failure
/// assertions: a partial tag (`{{>`) renders a template file read from
/// disk, a set-delimiter tag (`{{=`) could disguise one behind other
/// delimiters, and an implicit tag (`{{.}}`, with or without spacing) asks
/// the engine to render the whole data map, which its writer rejects.  A
/// plainly named tag only ever looks a name up in the data and writes the
/// string found, or nothing.
pub open spec fn plain_template(s: Seq<u8>) -> bool {
    forall|i: int| 0 <= i && i + 1 < s.len() ==> !bad_tag_at(s, i)
}

/// Whether every `{{` in the template opens a plainly named tag.
pub fn is_plain_template(s: &Vec<u8>) -> (r: bool)
    ensures
        r == plain_template(s@),
{
    if s.len() < 2 {
        return true;
    }
    let mut i: usize = 0;
    while i < s.len() - 1
        invariant
            2 <= s@.len(),
            i <= s@.len() - 1,
            forall|j: int| 0 <= j && j + 1 < s@.len() && j < i ==> !bad_tag_at(s@, j),
        decreases s@.len() - i,
    {
        if s[i] == 123 && s[i + 1] == 123 {
            let named_plainly = if i + 2 < s.len() {
                let b = s[i + 2];
                if (48 <= b && b <= 57) || (65 <= b && b <= 90) || (97 <= b && b <= 122) {
                    true
                } else if b == 123 && i + 3 < s.len() {
                    let c = s[i + 3];
                    (48 <= c && c <= 57) || (65 <= c && c <= 90) || (97 <= c && c <= 122)
                } else {
                    false
                }
            } else {
                false
            };
            if !named_plainly {
                proof {
                    assert(bad_tag_at(s@, i as int));
                }
                return false;
            }
        }
        i = i + 1;
    }
    true
}

/// Relies on mustache::compile_str and mustache::Template::render_data, with
/// the body bound to the key "body" through mustache::MapBuilder::insert_str.
/// For a plain template, compilation and rendering read nothing outside the
/// two strings and reach none of the engine's internal failure assertions:
/// a tag name either finds the bound body string and writes it, or finds
/// nothing and writes nothing.  Output and success are then functions of the
/// two strings alone.  Returns nothing exactly when a string is not UTF-8,
/// the template does not compile, or rendering fails.
#[verifier::external_body]
fn mustache_expand(template: &Vec<u8>, body: &Vec<u8>) -> (r: Option<Vec<u8>>)
    requires
        plain_template(template@),
    ensures
        r is Some <==> expansion_ok(template@, body@),
        r matches Some(h) ==> h@ == template_expansion(template@, body@),
{
    let template = core::str::from_utf8(template).ok()?;
    let body = core::str::from_utf8(body).ok()?;
    let compiled = mustache::compile_str(template).ok()?;
    let data = mustache::MapBuilder::new().insert_str("body", body).build();
    let mut rendered: Vec<u8> = Vec::new();
    compiled.render_data(&mut rendered, &data).ok()?;
    Some(rendered)
}

/// Relies on pulldown_cmark::Parser::new and pulldown_cmark::html::push_html:
/// the HTML fragment produced for a markdown string depends on that string
/// alone, and on core::str::from_utf8: the sole failure, so the call returns
/// nothing exactly when the input is not well-formed UTF-8.
#[verifier::external_body]
fn markdown_to_html(markdown: &Vec<u8>) -> (r: Option<Vec<u8>>)
    ensures
        r is Some <==> valid_utf8(markdown@),
        r matches Some(h) ==> h@ == markdown_html(markdown@),
{
    let markdown = core::str::from_utf8(markdown).ok()?;
    let mut html = String::new();
    pulldown_cmark::html::push_html(&mut html, pulldown_cmark::Parser::new(markdown));
    Some(html.into_bytes())
}

/// Every cached value is the image of its key under `f`, and no key appears
/// twice.
pub open spec fn cache_maps(
    cache: Seq<(Vec<u8>, Vec<u8>)>,
    f: spec_fn(Seq<u8>) -> Seq<u8>,
) -> bool {
    &&& forall|i: int| 0 <= i < cache.len() ==> (#[trigger] cache[i]).1@ == f(cache[i].0@)
    &&& forall|i: int, j: int| 0 <= i < j < cache.len() ==> cache[i].0@ != cache[j].0@
}

/// Whether some entry of the cache has this key.
pub open spec fn cache_has(cache: Seq<(Vec<u8>, Vec<u8>)>, key: Seq<u8>) -> bool {
    exists|i: int| 0 <= i < cache.len() && (#[trigger] cache[i]).0@ == key
}

/// The position of the entry with this key, if any.
fn cache_find(cache: &Vec<(Vec<u8>, Vec<u8>)>, key: &Vec<u8>) -> (r: Option<usize>)
    ensures
        r matches Some(i) ==> i < cache@.len() && cache@[i as int].0@ == key@,
        r is None ==> !cache_has(cache@, key@),
{
    let mut i: usize = 0;
    while i < cache.len()
        invariant
            i <= cache@.len(),
            forall|j: int| 0 <= j < i ==> (#[trigger] cache@[j]).0@ != key@,
        decreases cache@.len() - i,
    {
        if bytes_eq(&cache[i].0, key) {
            return Some(i);
        }
        i = i + 1;
    }
    None
}

/// The rendered pages of the site: the two template sources, and one cache
/// per rendering step, each keyed by the exact source string it renders.
pub struct ContentStore {
    pub main_template: Vec<u8>,
    pub guide_template: Vec<u8>,
    pub main_cache: Vec<(Vec<u8>, Vec<u8>)>,
    pub guide_cache: Vec<(Vec<u8>, Vec<u8>)>,
    pub markdown_cache: Vec<(Vec<u8>, Vec<u8>)>,
}

impl ContentStore {
    /// Both templates render from their strings alone, and every cache maps
    /// each key to exactly what rendering it produces.
    pub open spec fn wf(self) -> bool {
        &&& plain_template(self.main_template@)
        &&& plain_template(self.guide_template@)
        &&& cache_maps(
            self.main_cache@,
            |b: Seq<u8>| template_expansion(self.main_template@, b),
        )
        &&& cache_maps(
            self.guide_cache@,
            |b: Seq<u8>| template_expansion(self.guide_template@, b),
        )
        &&& cache_maps(self.markdown_cache@, |b: Seq<u8>| markdown_html(b))
    }

    /// The template sources are unchanged.
    pub open spec fn same_templates(self, other: ContentStore) -> bool {
        &&& self.main_template@ == other.main_template@
        &&& self.guide_template@ == other.guide_template@
    }

    /// A store over the given page and guide templates, with empty caches.
    /// Refused exactly when a template holds anything but plainly named
    /// tags: a partial or set-delimiter tag would make it render from disk,
    /// and an implicit `.` tag would make the engine reject its own data.
    pub fn new(main_template: Vec<u8>, guide_template: Vec<u8>) -> (r: Option<ContentStore>)
        ensures
            r matches Some(s) ==> s.wf() && s.main_template@ == main_template@
                && s.guide_template@ == guide_template@ && s.main_cache@.len() == 0
                && s.guide_cache@.len() == 0 && s.markdown_cache@.len() == 0,
            r is Some <==> plain_template(main_template@) && plain_template(guide_template@),
    {
        if !is_plain_template(&main_template) {
            return None;
        }
        if !is_plain_template(&guide_template) {
            return None;
        }
        Some(
            ContentStore {
                main_template,
                guide_template,
                main_cache: Vec::new(),
                guide_cache: Vec::new(),
                markdown_cache: Vec::new(),
            },
        )
    }

    /// The full page for an HTML body: the body expanded into the main page
    /// template.  Rendered once per distinct body, then served from the
    /// cache.  Returns nothing only when a first rendering of this body
    /// fails; a cached body always succeeds.
    pub fn main_page(&mut self, body: &Vec<u8>) -> (r: Option<Vec<u8>>)
        requires
            old(self).wf(),
        ensures
            final(self).wf(),
            old(self).same_templates(*final(self)),
            r matches Some(h) ==> h@ == template_expansion(old(self).main_template@, body@),
            r is Some <==> cache_has(old(self).main_cache@, body@) || expansion_ok(
                old(self).main_template@,
                body@,
            ),
            r is Some <==> cache_has(final(self).main_cache@, body@),
            old(self).main_cache@.is_prefix_of(final(self).main_cache@),
            final(self).guide_cache@ == old(self).guide_cache@,
            final(self).markdown_cache@ == old(self).markdown_cache@,
    {
        if let Some(i) = cache_find(&self.main_cache, body) {
            return Some(copy_bytes(&self.main_cache[i].1));
        }
        match mustache_expand(&self.main_template, body) {
            Some(h) => {
                let key = copy_bytes(body);
                let value = copy_bytes(&h);
                self.main_cache.push((key, value));
                proof {
                    assert(cache_has(self.main_cache@, body@)) by {
                        assert(self.main_cache@[self.main_cache@.len() - 1].0@ == body@);
                    }
                }
                Some(h)
            },
            None => None,
        }
    }

    /// The full page for a guide body: the body expanded into the guide
    /// template, and that into the main page template.  Each level is
    /// rendered once per distinct source, then served from its cache.
    pub fn guide_page(&mut self, body: &Vec<u8>) -> (r: Option<Vec<u8>>)
        requires
            old(self).wf(),
        ensures
            final(self).wf(),
            old(self).same_templates(*final(self)),
            r matches Some(h) ==> h@ == template_expansion(
                old(self).main_template@,
                template_expansion(old(self).guide_template@, body@),
            ),
            r is Some ==> cache_has(final(self).guide_cache@, body@) && cache_has(
                final(self).main_cache@,
                template_expansion(old(self).guide_template@, body@),
            ),
            r is Some <==> (cache_has(old(self).guide_cache@, body@) || expansion_ok(
                old(self).guide_template@,
                body@,
            )) && (cache_has(
                old(self).main_cache@,
                template_expansion(old(self).guide_template@, body@),
            ) || expansion_ok(
                old(self).main_template@,
                template_expansion(old(self).guide_template@, body@),
            )),
            old(self).main_cache@.is_prefix_of(final(self).main_cache@),
            old(self).guide_cache@.is_prefix_of(final(self).guide_cache@),
            final(self).markdown_cache@ == old(self).markdown_cache@,
    {
        let inner = if let Some(i) = cache_find(&self.guide_cache, body) {
            proof {
                assert((self.guide_cache@[i as int]).1@ == template_expansion(
                    self.guide_template@,
                    body@,
                ));
                assert(cache_has(self.guide_cache@, body@)) by {
                    assert((self.guide_cache@[i as int]).0@ == body@);
                }
            }
            copy_bytes(&self.guide_cache[i].1)
        } else {
            match mustache_expand(&self.guide_template, body) {
                Some(h) => {
                    let key = copy_bytes(body);
                    let value = copy_bytes(&h);
                    self.guide_cache.push((key, value));
                    proof {
                        assert(cache_has(self.guide_cache@, body@)) by {
                            assert((self.guide_cache@[self.guide_cache@.len() - 1]).0@
                                == body@);
                        }
                    }
                    h
                },
                None => {
                    return None;
                },
            }
        };
        proof {
            assert(inner@ == template_expansion(self.guide_template@, body@));
        }
        self.main_page(&inner)
    }

    /// The full page for a markdown guide body: the markdown turned into an
    /// HTML fragment, then expanded through the guide and main templates.
    /// Each step is rendered once per distinct source, then served from its
    /// cache.
    pub fn guide_markdown_page(&mut self, markdown: &Vec<u8>) -> (r: Option<Vec<u8>>)
        requires
            old(self).wf(),
        ensures
            final(self).wf(),
            old(self).same_templates(*final(self)),
            r matches Some(h) ==> h@ == template_expansion(
                old(self).main_template@,
                template_expansion(
                    old(self).guide_template@,
                    markdown_html(markdown@),
                ),
            ),
            r is Some ==> cache_has(final(self).markdown_cache@, markdown@) && cache_has(
                final(self).guide_cache@,
                markdown_html(markdown@),
            ) && cache_has(
                final(self).main_cache@,
                template_expansion(old(self).guide_template@, markdown_html(markdown@)),
            ),
            r is Some <==> (cache_has(old(self).markdown_cache@, markdown@) || valid_utf8(
                markdown@,
            )) && (cache_has(old(self).guide_cache@, markdown_html(markdown@)) || expansion_ok(
                old(self).guide_template@,
                markdown_html(markdown@),
            )) && (cache_has(
                old(self).main_cache@,
                template_expansion(old(self).guide_template@, markdown_html(markdown@)),
            ) || expansion_ok(
                old(self).main_template@,
                template_expansion(old(self).guide_template@, markdown_html(markdown@)),
            )),
            old(self).main_cache@.is_prefix_of(final(self).main_cache@),
            old(self).guide_cache@.is_prefix_of(final(self).guide_cache@),
            old(self).markdown_cache@.is_prefix_of(final(self).markdown_cache@),
    {
        let fragment = if let Some(i) = cache_find(&self.markdown_cache, markdown) {
            proof {
                assert((self.markdown_cache@[i as int]).1@ == markdown_html(markdown@));
                assert(cache_has(self.markdown_cache@, markdown@)) by {
                    assert((self.markdown_cache@[i as int]).0@ == markdown@);
                }
            }
            copy_bytes(&self.markdown_cache[i].1)
        } else {
            match markdown_to_html(markdown) {
                Some(h) => {
                    let key = copy_bytes(markdown);
                    let value = copy_bytes(&h);
                    self.markdown_cache.push((key, value));
                    proof {
                        assert(cache_has(self.markdown_cache@, markdown@)) by {
                            assert((self.markdown_cache@[self.markdown_cache@.len() - 1]).0@
                                == markdown@);
                        }
                    }
                    h
                },
                None => {
                    return None;
                },
            }
        };
        proof {
            assert(fragment@ == markdown_html(markdown@));
        }
        self.guide_page(&fragment)
    }
}

} // verus!
