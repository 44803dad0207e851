//! Resolves a file name's extension to a content type from the fixed
//! allow-list `{jpg, jpeg, png, webp}` (case-insensitive).

use vstd::prelude::*;

verus! {

/// The content types a cataloged resource may have.
#[derive(Clone, Copy, Debug, PartialEq, Eq, Structural)]
pub enum ContentType {
    Jpeg,
    Png,
    Webp,
}

impl ContentType {
    /// The MIME name sent in a `Content-Type` header.
    pub open spec fn mime_spec(self) -> Seq<char> {
        match self {
            ContentType::Jpeg => "image/jpeg"@,
            ContentType::Png => "image/png"@,
            ContentType::Webp => "image/webp"@,
        }
    }

    pub fn mime(&self) -> (r: &'static str)
        ensures
            r@ == self.mime_spec(),
    {
        match self {
            ContentType::Jpeg => "image/jpeg",
            ContentType::Png => "image/png",
            ContentType::Webp => "image/webp",
        }
    }
}

/// Case-insensitive match against the extension `jpg`.
pub open spec fn is_jpg_ext(e: Seq<char>) -> bool {
    &&& e.len() == 3
    &&& (e[0] == 'j' || e[0] == 'J')
    &&& (e[1] == 'p' || e[1] == 'P')
    &&& (e[2] == 'g' || e[2] == 'G')
}

/// Case-insensitive match against the extension `jpeg`.
pub open spec fn is_jpeg_ext(e: Seq<char>) -> bool {
    &&& e.len() == 4
    &&& (e[0] == 'j' || e[0] == 'J')
    &&& (e[1] == 'p' || e[1] == 'P')
    &&& (e[2] == 'e' || e[2] == 'E')
    &&& (e[3] == 'g' || e[3] == 'G')
}

/// Case-insensitive match against the extension `png`.
pub open spec fn is_png_ext(e: Seq<char>) -> bool {
    &&& e.len() == 3
    &&& (e[0] == 'p' || e[0] == 'P')
    &&& (e[1] == 'n' || e[1] == 'N')
    &&& (e[2] == 'g' || e[2] == 'G')
}

/// Case-insensitive match against the extension `webp`.
pub open spec fn is_webp_ext(e: Seq<char>) -> bool {
    &&& e.len() == 4
    &&& (e[0] == 'w' || e[0] == 'W')
    &&& (e[1] == 'e' || e[1] == 'E')
    &&& (e[2] == 'b' || e[2] == 'B')
    &&& (e[3] == 'p' || e[3] == 'P')
}

/// The content type an extension resolves to, if it is on the allow-list.
pub open spec fn ext_content_type(e: Seq<char>) -> Option<ContentType> {
    if is_jpg_ext(e) || is_jpeg_ext(e) {
        Some(ContentType::Jpeg)
    } else if is_png_ext(e) {
        Some(ContentType::Png)
    } else if is_webp_ext(e) {
        Some(ContentType::Webp)
    } else {
        None
    }
}

/// Resolves a bare extension (without the dot) to a content type.
pub fn content_type_from_extension(ext: &str) -> (r: Option<ContentType>)
    ensures
        r == ext_content_type(ext@),
{
    let len = ext.unicode_len();
    if len == 3 {
        let c0 = ext.get_char(0);
        let c1 = ext.get_char(1);
        let c2 = ext.get_char(2);
        if (c0 == 'j' || c0 == 'J') && (c1 == 'p' || c1 == 'P') && (c2 == 'g' || c2 == 'G') {
            Some(ContentType::Jpeg)
        } else if (c0 == 'p' || c0 == 'P') && (c1 == 'n' || c1 == 'N') && (c2 == 'g' || c2 == 'G') {
            Some(ContentType::Png)
        } else {
            None
        }
    } else if len == 4 {
        let c0 = ext.get_char(0);
        let c1 = ext.get_char(1);
        let c2 = ext.get_char(2);
        let c3 = ext.get_char(3);
        if (c0 == 'j' || c0 == 'J') && (c1 == 'p' || c1 == 'P') && (c2 == 'e' || c2 == 'E')
            && (c3 == 'g' || c3 == 'G') {
            Some(ContentType::Jpeg)
        } else if (c0 == 'w' || c0 == 'W') && (c1 == 'e' || c1 == 'E') && (c2 == 'b' || c2 == 'B')
            && (c3 == 'p' || c3 == 'P') {
            Some(ContentType::Webp)
        } else {
            None
        }
    } else {
        None
    }
}

/// The index of the last `.` in a name, if any.
pub open spec fn last_dot(s: Seq<char>) -> Option<int>
    decreases s.len(),
{
    if s.len() == 0 {
        None
    } else if s[s.len() - 1] == '.' {
        Some(s.len() - 1)
    } else {
        last_dot(s.drop_last())
    }
}

/// The extension of a file name: the characters after the last `.`. A name
/// with no `.`, or whose only `.` is its first character (a hidden file such
/// as `.png`), has none.
pub open spec fn extension_of(name: Seq<char>) -> Option<Seq<char>> {
    match last_dot(name) {
        Some(d) => if d >= 1 {
            Some(name.subrange(d + 1, name.len() as int))
        } else {
            None
        },
        None => None,
    }
}

/// The content type a file name resolves to, if its extension is on the
/// allow-list.
pub open spec fn name_content_type(name: Seq<char>) -> Option<ContentType> {
    match extension_of(name) {
        Some(e) => ext_content_type(e),
        None => None,
    }
}

/// Whether a file name is eligible for the catalog.
pub open spec fn supported_name(name: Seq<char>) -> bool {
    name_content_type(name) is Some
}

proof fn lemma_last_dot_take(s: Seq<char>, i: int)
    requires
        0 <= i <= s.len(),
        forall|j: int| i <= j < s.len() ==> s[j] != '.',
    ensures
        last_dot(s) == last_dot(s.take(i)),
    decreases s.len() - i,
{
    if i < s.len() {
        lemma_last_dot_take(s, i + 1);
        assert(s.take(i + 1).drop_last() =~= s.take(i));
        assert(s.take(i + 1)[i] != '.');
    } else {
        assert(s.take(i) =~= s);
    }
}

/// Resolves a file name to a content type by its extension.
pub fn resolve_content_type(name: &str) -> (r: Option<ContentType>)
    ensures
        r == name_content_type(name@),
{
    let len = name.unicode_len();
    let mut i = len;
    while i > 0
        invariant
            0 <= i <= len,
            len == name@.len(),
            forall|j: int| i <= j < len ==> name@[j] != '.',
        decreases i,
    {
        let c = name.get_char(i - 1);
        if c == '.' {
            proof {
                lemma_last_dot_take(name@, i as int);
                assert(name@.take(i as int).last() == '.');
                assert(last_dot(name@) == Some(i - 1));
            }
            if i - 1 >= 1 {
                let ext = name.substring_char(i, len);
                return content_type_from_extension(ext);
            } else {
                return None;
            }
        }
        i = i - 1;
    }
    proof {
        lemma_last_dot_take(name@, 0);
        assert(name@.take(0) =~= Seq::<char>::empty());
    }
    None
}

/// Reports whether a content type belongs to the allow-list. Every value of
/// [`ContentType`] does, so this always holds; it is the runtime counterpart
/// of the catalog invariant.
pub fn content_type_check(contenttype: &ContentType) -> (r: bool)
    ensures
        r,
{
    match contenttype {
        ContentType::Jpeg => true,
        ContentType::Png => true,
        ContentType::Webp => true,
    }
}

} // verus!
