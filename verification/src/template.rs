//! The page template and its three placeholders.

use vstd::prelude::*;
use crate::text::{
    contains, free_of, guarded, has_substring, is_token, lemma_replace_guarded,
    lemma_replace_keeps_occurrence, lemma_replace_writes, occurs_at, replace, replace_all,
};

verus! {

/// Placeholder for the page title.
pub const TITLE_TOKEN: &'static str = "${title}";

/// Placeholder for the optional extra `<meta>` tag.
pub const META_TOKEN: &'static str = "${extra_meta}";

/// Placeholder for the path of the picture.
pub const IMG_TOKEN: &'static str = "${img}";

/// What opens every placeholder.
pub const TOKEN_OPENER: &'static str = "${";

/// Tag that makes a browser without scripting load the page again after
/// three seconds, and so get another picture.
pub const META_REFRESH: &'static str = "<meta http-equiv=\"refresh\" content=\"3;/\">";

/// The text that takes the place of the extra-meta placeholder.
pub open spec fn extra_meta(js_enabled: bool) -> Seq<char> {
    if js_enabled {
        Seq::empty()
    } else {
        META_REFRESH@
    }
}

/// The page: the template with the title, then the extra tag, then the
/// picture's path put in place of their placeholders, in this order.
pub open spec fn rendered(
    template: Seq<char>,
    title: Seq<char>,
    js_enabled: bool,
    img: Seq<char>,
) -> Seq<char> {
    let with_title = replace_all(template, TITLE_TOKEN@, title);
    let with_meta = replace_all(with_title, META_TOKEN@, extra_meta(js_enabled));
    replace_all(with_meta, IMG_TOKEN@, img)
}

/// Renders the page for one picture.
pub fn render(template: &str, title: &str, js_enabled: bool, img: &str) -> (page: String)
    ensures
        page@ == rendered(template@, title@, js_enabled, img@),
{
    let extra = if js_enabled { "" } else { META_REFRESH };
    proof {
        reveal_strlit("");
        assert(""@ =~= Seq::<char>::empty());
    }
    let with_title = replace(template, TITLE_TOKEN, title);
    let with_meta = replace(with_title.as_str(), META_TOKEN, extra);
    replace(with_meta.as_str(), IMG_TOKEN, img)
}

/// Whether a placeholder opener is left in `page`.
pub fn has_unresolved(page: &str) -> (b: bool)
    ensures
        b == contains(page@, TOKEN_OPENER@),
{
    has_substring(page, TOKEN_OPENER)
}

/// The three placeholders.
pub open spec fn placeholders() -> Set<Seq<char>> {
    set![TITLE_TOKEN@, META_TOKEN@, IMG_TOKEN@]
}

/// Every dollar sign of the template opens one of the three placeholders.
pub open spec fn well_formed(template: Seq<char>) -> bool {
    guarded(template, '$', placeholders())
}

/// Each placeholder opens with a dollar sign and holds no other; the
/// refresh tag holds none.
proof fn lemma_literals()
    ensures
        is_token(TITLE_TOKEN@, '$'),
        is_token(META_TOKEN@, '$'),
        is_token(IMG_TOKEN@, '$'),
        TITLE_TOKEN@.len() > 2 && TITLE_TOKEN@[2] == 't',
        META_TOKEN@.len() > 2 && META_TOKEN@[2] == 'e',
        IMG_TOKEN@.len() > 2 && IMG_TOKEN@[2] == 'i',
        free_of(IMG_TOKEN@.skip(1), '<'),
        META_REFRESH@.len() > 0,
        META_REFRESH@[0] == '<',
        free_of(META_REFRESH@, '$'),
        TOKEN_OPENER@.len() == 2,
        TOKEN_OPENER@[0] == '$',
{
    reveal_strlit("${title}");
    reveal_strlit("${extra_meta}");
    reveal_strlit("${img}");
    reveal_strlit("${");
    reveal_strlit("<meta http-equiv=\"refresh\" content=\"3;/\">");
}

/// A page rendered from a well-formed template, with a title and a picture
/// path that hold no dollar sign, holds none either: no placeholder is
/// left in it.
pub proof fn law_no_placeholder_left(
    template: Seq<char>,
    title: Seq<char>,
    js_enabled: bool,
    img: Seq<char>,
)
    requires
        well_formed(template),
        free_of(title, '$'),
        free_of(img, '$'),
    ensures
        free_of(rendered(template, title, js_enabled, img), '$'),
        !contains(rendered(template, title, js_enabled, img), TOKEN_OPENER@),
{
    lemma_literals();
    let extra = extra_meta(js_enabled);
    let two: Set<Seq<char>> = set![META_TOKEN@, IMG_TOKEN@];
    let one: Set<Seq<char>> = set![IMG_TOKEN@];
    let none: Set<Seq<char>> = Set::empty();
    assert(two.insert(TITLE_TOKEN@) =~= placeholders());
    assert(one.insert(META_TOKEN@) =~= two);
    assert(none.insert(IMG_TOKEN@) =~= one);
    let with_title = replace_all(template, TITLE_TOKEN@, title);
    lemma_replace_guarded(template, TITLE_TOKEN@, title, '$', two);
    let with_meta = replace_all(with_title, META_TOKEN@, extra);
    lemma_replace_guarded(with_title, META_TOKEN@, extra, '$', one);
    let page = replace_all(with_meta, IMG_TOKEN@, img);
    lemma_replace_guarded(with_meta, IMG_TOKEN@, img, '$', none);
    assert forall|i: int| 0 <= i < page.len() implies page[i] != '$' by {
        if page[i] == '$' {
            let t = choose|t: Seq<char>| none.contains(t) && #[trigger] occurs_at(page, t, i);
            assert(false);
        }
    }
    assert forall|i: int| !occurs_at(page, TOKEN_OPENER@, i) by {
        if occurs_at(page, TOKEN_OPENER@, i) {
            assert(page.subrange(i, i + 2)[0] == '$');
        }
    }
}

/// Where the template holds the picture placeholder, the rendered page
/// holds the path of the picture.
pub proof fn law_page_shows_picture(
    template: Seq<char>,
    title: Seq<char>,
    js_enabled: bool,
    img: Seq<char>,
)
    requires
        contains(template, IMG_TOKEN@),
    ensures
        contains(rendered(template, title, js_enabled, img), img),
{
    lemma_literals();
    let extra = extra_meta(js_enabled);
    let i = choose|i: int| occurs_at(template, IMG_TOKEN@, i);
    let with_title = replace_all(template, TITLE_TOKEN@, title);
    lemma_tokens_differ(IMG_TOKEN@, TITLE_TOKEN@);
    lemma_replace_keeps_occurrence(template, IMG_TOKEN@, i, TITLE_TOKEN@, title);
    let j = choose|j: int| occurs_at(with_title, IMG_TOKEN@, j);
    let with_meta = replace_all(with_title, META_TOKEN@, extra);
    lemma_tokens_differ(IMG_TOKEN@, META_TOKEN@);
    lemma_replace_keeps_occurrence(with_title, IMG_TOKEN@, j, META_TOKEN@, extra);
    let k = choose|k: int| occurs_at(with_meta, IMG_TOKEN@, k);
    lemma_replace_writes(with_meta, IMG_TOKEN@, img, k);
}

/// Where the template holds the extra-meta placeholder, the page rendered
/// for a client without scripting holds the refresh tag.
pub proof fn law_refresh_without_scripting(template: Seq<char>, title: Seq<char>, img: Seq<char>)
    requires
        contains(template, META_TOKEN@),
    ensures
        contains(rendered(template, title, false, img), META_REFRESH@),
{
    lemma_literals();
    let i = choose|i: int| occurs_at(template, META_TOKEN@, i);
    let with_title = replace_all(template, TITLE_TOKEN@, title);
    lemma_tokens_differ(META_TOKEN@, TITLE_TOKEN@);
    lemma_replace_keeps_occurrence(template, META_TOKEN@, i, TITLE_TOKEN@, title);
    let j = choose|j: int| occurs_at(with_title, META_TOKEN@, j);
    let with_meta = replace_all(with_title, META_TOKEN@, META_REFRESH@);
    lemma_replace_writes(with_title, META_TOKEN@, META_REFRESH@, j);
    let k = choose|k: int| occurs_at(with_meta, META_REFRESH@, k);
    assert(free_of(META_REFRESH@.skip(1), '$')) by {
        assert forall|n: int| 0 <= n < META_REFRESH@.skip(1).len() implies META_REFRESH@.skip(
            1,
        )[n] != '$' by {
            assert(META_REFRESH@.skip(1)[n] == META_REFRESH@[n + 1]);
        }
    }
    assert(!occurs_at(META_REFRESH@, IMG_TOKEN@, 0)) by {
        if occurs_at(META_REFRESH@, IMG_TOKEN@, 0) {
            assert(META_REFRESH@.subrange(0, IMG_TOKEN@.len() as int)[0] == IMG_TOKEN@[0]);
        }
    }
    assert(!occurs_at(IMG_TOKEN@, META_REFRESH@, 0)) by {
        if occurs_at(IMG_TOKEN@, META_REFRESH@, 0) {
            assert(IMG_TOKEN@.subrange(0, META_REFRESH@.len() as int)[0] == META_REFRESH@[0]);
        }
    }
    lemma_replace_keeps_occurrence(with_meta, META_REFRESH@, k, IMG_TOKEN@, img);
}

/// Two tokens that differ in their third character: neither begins with
/// the other, and neither can run into the other.
proof fn lemma_tokens_differ(a: Seq<char>, b: Seq<char>)
    requires
        is_token(a, '$'),
        is_token(b, '$'),
        a.len() > 2,
        b.len() > 2,
        a[2] != b[2],
    ensures
        free_of(a.skip(1), b[0]),
        free_of(b.skip(1), a[0]),
        !occurs_at(a, b, 0),
        !occurs_at(b, a, 0),
{
    if occurs_at(a, b, 0) {
        assert(a.subrange(0, b.len() as int)[2] == b[2]);
    }
    if occurs_at(b, a, 0) {
        assert(b.subrange(0, a.len() as int)[2] == a[2]);
    }
}

} // verus!
