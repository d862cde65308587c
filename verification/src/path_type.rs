//! Kinds of objects that the path of an exception names.
use vstd::prelude::*;

use crate::access::{compute_file_access_masks, compute_registry_access_masks};
use crate::wide::WideString;
use crate::win32::load_object_type_codes;

verus! {

/// What `str::to_uppercase` makes of a text.
pub uninterp spec fn uppercase(text: Seq<char>) -> Seq<char>;

/// The upper case of an ASCII letter; any other character is left as it is.
pub open spec fn ascii_uppercase(c: char) -> char {
    if 'a' <= c <= 'z' {
        (c as u32 - 32) as char
    } else {
        c
    }
}

/// `str::to_uppercase`: the result depends on the text alone. Of a text of ASCII characters it
/// is the text with each letter in upper case; the Unicode rules for any other text are left
/// unsaid.
pub assume_specification[ str::to_uppercase ](s: &str) -> (r: std::string::String)
    ensures
        r@ == uppercase(s@),
        vstd::utf8::is_ascii_chars(s@) ==> r@ == s@.map_values(|c: char| ascii_uppercase(c)),
;

/// A view of the registry.
#[derive(Debug, Clone, Copy, PartialEq, Eq, Structural)]
pub enum RegistryView {
    /// That of the process.
    Native,
    /// That of 32-bit programs.
    Wow64_32,
    /// That of 64-bit programs.
    Wow64_64,
}

/// The prefix by which a path names a view of the registry.
pub open spec fn registry_prefix(view: RegistryView) -> Seq<char> {
    match view {
        RegistryView::Native => "REGISTRY:"@,
        RegistryView::Wow64_32 => "REGISTRY+WOW64_32KEY:"@,
        RegistryView::Wow64_64 => "REGISTRY+WOW64_64KEY:"@,
    }
}

/// The view of the registry that a text in upper case names by its prefix.
pub open spec fn uppercase_registry_view(upper: Seq<char>) -> Option<RegistryView> {
    if registry_prefix(RegistryView::Native).is_prefix_of(upper) {
        Some(RegistryView::Native)
    } else if registry_prefix(RegistryView::Wow64_32).is_prefix_of(upper) {
        Some(RegistryView::Wow64_32)
    } else if registry_prefix(RegistryView::Wow64_64).is_prefix_of(upper) {
        Some(RegistryView::Wow64_64)
    } else {
        None
    }
}

/// The view of the registry that a path names, in whatever case its letters are; a path that is
/// not Unicode names none.
pub open spec fn path_registry_view(path: Seq<u16>) -> Option<RegistryView> {
    if crate::wide::is_unicode(path) {
        uppercase_registry_view(uppercase(crate::wide::decode_lossy(path)))
    } else {
        None
    }
}

/// Whether a text begins with a prefix in upper case, but for the case of its ASCII letters.
pub open spec fn has_prefix_ignoring_case(text: Seq<char>, prefix: Seq<char>) -> bool {
    &&& prefix.len() <= text.len()
    &&& forall|i: int| 0 <= i < prefix.len() ==> #[trigger] ascii_uppercase(text[i]) == prefix[i]
}

/// Whether a path is made of ASCII characters.
pub open spec fn is_ascii_path(path: Seq<u16>) -> bool {
    crate::wide::is_unicode(path) && vstd::utf8::is_ascii_chars(crate::wide::decode_lossy(path))
}

/// Whether `view` is the view of the registry whose prefix a path begins with, but for the case
/// of its ASCII letters.
pub open spec fn names_by_prefix(path: Seq<u16>, view: Option<RegistryView>) -> bool {
    forall|v: RegistryView|
        view == Some(v) <==> #[trigger] has_prefix_ignoring_case(
            crate::wide::decode_lossy(path),
            registry_prefix(v),
        )
}

/// The name of the registry key in a path with the prefix of `view`: the path without as many
/// units as the prefix has characters.
pub open spec fn registry_key_name(path: Seq<u16>, view: RegistryView) -> Seq<u16> {
    if registry_prefix(view).len() <= path.len() {
        path.skip(registry_prefix(view).len() as int)
    } else {
        Seq::empty()
    }
}

/// A text begins with the prefix of one view of the registry at most.
pub proof fn registry_prefixes_exclude_each_other(text: Seq<char>, a: RegistryView, b: RegistryView)
    requires
        registry_prefix(a).is_prefix_of(text),
        registry_prefix(b).is_prefix_of(text),
    ensures
        a == b,
{
    reveal_strlit("REGISTRY:");
    reveal_strlit("REGISTRY+WOW64_32KEY:");
    reveal_strlit("REGISTRY+WOW64_64KEY:");
    let (p, q) = (registry_prefix(a), registry_prefix(b));
    assert(p[8] == text[8] && q[8] == text[8]);
    if p.len() > 9 && q.len() > 9 {
        assert(p[15] == text[15] && q[15] == text[15]);
    }
}

proof fn lemma_ascii_prefix(text: Seq<char>, upper: Seq<char>, prefix: Seq<char>)
    requires
        upper == text.map_values(|c: char| ascii_uppercase(c)),
    ensures
        prefix.is_prefix_of(upper) <==> has_prefix_ignoring_case(text, prefix),
{
    assert forall|i: int| 0 <= i < text.len() implies upper[i] == #[trigger] ascii_uppercase(
        text[i],
    ) by {}
    if prefix.is_prefix_of(upper) {
        assert forall|i: int| 0 <= i < prefix.len() implies #[trigger] ascii_uppercase(text[i])
            == prefix[i] by {
            assert(upper[i] == prefix[i]);
        }
    }
    if has_prefix_ignoring_case(text, prefix) {
        assert(upper.subrange(0, prefix.len() as int) =~= prefix);
    }
}

proof fn lemma_ascii_encode(text: Seq<char>, n: int)
    requires
        0 <= n <= text.len(),
        forall|i: int| 0 <= i < n ==> (#[trigger] text[i]) as int <= 0x7F,
    ensures
        encode_ascii_split(text, n),
    decreases n,
{
    if n == 0 {
        assert(text.skip(0) =~= text);
        let units = crate::wide::encode_utf16(text);
        assert(units.skip(0) =~= units);
    } else {
        let rest = text.skip(1);
        assert forall|i: int| 0 <= i < n - 1 implies (#[trigger] rest[i]) as int <= 0x7F by {
            assert(rest[i] == text[i + 1]);
        }
        lemma_ascii_encode(rest, n - 1);
        assert(rest.skip(n - 1) =~= text.skip(n));
        let units = crate::wide::encode_utf16(text);
        assert(text[0] as int <= 0x7F);
        assert(units =~= crate::wide::encode_char(text[0]) + crate::wide::encode_utf16(rest));
        assert(units.skip(n) =~= crate::wide::encode_utf16(rest).skip(n - 1));
    }
}

spec fn encode_ascii_split(text: Seq<char>, n: int) -> bool {
    &&& crate::wide::encode_utf16(text).len() >= n
    &&& crate::wide::encode_utf16(text).skip(n) == crate::wide::encode_utf16(text.skip(n))
}

/// The key that a registry path names is the text that follows the prefix.
pub proof fn registry_key_follows_prefix(text: Seq<char>, view: RegistryView)
    requires
        has_prefix_ignoring_case(text, registry_prefix(view)),
    ensures
        registry_key_name(crate::wide::encode_utf16(text), view) == crate::wide::encode_utf16(
            text.skip(registry_prefix(view).len() as int),
        ),
{
    reveal_strlit("REGISTRY:");
    reveal_strlit("REGISTRY+WOW64_32KEY:");
    reveal_strlit("REGISTRY+WOW64_64KEY:");
    let prefix = registry_prefix(view);
    assert forall|i: int| 0 <= i < prefix.len() implies (#[trigger] text[i]) as int <= 0x7F by {
        assert(ascii_uppercase(text[i]) == prefix[i]);
        assert(prefix[i] as int <= 0x7F);
    }
    lemma_ascii_encode(text, prefix.len() as int);
}

impl RegistryView {
    /// The prefix by which a path names the view.
    pub fn prefix(self) -> (r: &'static str)
        ensures
            r@ == registry_prefix(self),
    {
        match self {
            RegistryView::Native => "REGISTRY:",
            RegistryView::Wow64_32 => "REGISTRY+WOW64_32KEY:",
            RegistryView::Wow64_64 => "REGISTRY+WOW64_64KEY:",
        }
    }

    /// The view that a text in upper case names.
    pub fn of_uppercase(upper: &str) -> (r: Option<RegistryView>)
        ensures
            r == uppercase_registry_view(upper@),
    {
        if starts_with(upper, RegistryView::Native.prefix()) {
            Some(RegistryView::Native)
        } else if starts_with(upper, RegistryView::Wow64_32.prefix()) {
            Some(RegistryView::Wow64_32)
        } else if starts_with(upper, RegistryView::Wow64_64.prefix()) {
            Some(RegistryView::Wow64_64)
        } else {
            None
        }
    }

    /// The view that a path names. An ASCII path names the one whose prefix it begins with, but
    /// for the case of its letters.
    pub fn of_path(path: &WideString) -> (r: Option<RegistryView>)
        ensures
            r == path_registry_view(path@),
            is_ascii_path(path@) ==> names_by_prefix(path@, r),
    {
        match path.to_str() {
            Some(text) => {
                proof {
                    crate::wide::decode_of_encode(text@);
                }
                let upper = text.to_uppercase();
                let view = RegistryView::of_uppercase(upper.as_str());
                proof {
                    if vstd::utf8::is_ascii_chars(text@) {
                        assert forall|v: RegistryView|
                            view == Some(v) <==> #[trigger] has_prefix_ignoring_case(
                                text@,
                                registry_prefix(v),
                            ) by {
                            lemma_ascii_prefix(text@, upper@, registry_prefix(v));
                            if view is Some && registry_prefix(v).is_prefix_of(upper@) {
                                registry_prefixes_exclude_each_other(upper@, view->0, v);
                            }
                        }
                    }
                }
                view
            },
            None => None,
        }
    }

    /// The name of the registry key in a path that names the view.
    pub fn key_name(self, path: &WideString) -> (r: WideString)
        ensures
            r@ == registry_key_name(path@, self),
    {
        path.skip(self.prefix().unicode_len())
    }
}

/// Whether `text` begins with `prefix`.
fn starts_with(text: &str, prefix: &str) -> (r: bool)
    ensures
        r == prefix@.is_prefix_of(text@),
{
    let n: usize = prefix.unicode_len();
    if text.unicode_len() < n {
        return false;
    }
    let mut i: usize = 0;
    while i < n
        invariant
            n == prefix@.len(),
            n <= text@.len(),
            i <= n,
            prefix@.take(i as int) =~= text@.take(i as int),
        decreases n - i,
    {
        if text.get_char(i) != prefix.get_char(i) {
            assert(text@.take(n as int)[i as int] != prefix@[i as int]);
            return false;
        }
        assert(prefix@.take(i + 1) =~= prefix@.take(i as int).push(prefix@[i as int]));
        assert(text@.take(i + 1) =~= text@.take(i as int).push(text@[i as int]));
        i = i + 1;
    }
    assert(prefix@.take(n as int) =~= prefix@);
    true
}

/// A kind of securable object.
#[derive(Debug, Clone, Copy, PartialEq, Eq, Structural)]
pub enum ObjectType {
    /// A file or directory.
    FileObject,
    /// A registry key.
    RegistryKey,
    /// A registry key in the view of 32-bit programs.
    RegistryWow64_32Key,
    /// A registry key in the view of 64-bit programs.
    RegistryWow64_64Key,
}

/// The number by which the system knows a kind of object.
pub open spec fn object_type_code(object_type: ObjectType) -> i32 {
    let codes = crate::win32::object_type_codes();
    match object_type {
        ObjectType::FileObject => codes.file_object,
        ObjectType::RegistryKey => codes.registry_key,
        ObjectType::RegistryWow64_32Key => codes.registry_wow64_32key,
        ObjectType::RegistryWow64_64Key => codes.registry_wow64_64key,
    }
}

/// The kind of object that a registry view, or none, stands for.
pub open spec fn view_object_type(view: Option<RegistryView>) -> ObjectType {
    match view {
        None => ObjectType::FileObject,
        Some(RegistryView::Native) => ObjectType::RegistryKey,
        Some(RegistryView::Wow64_32) => ObjectType::RegistryWow64_32Key,
        Some(RegistryView::Wow64_64) => ObjectType::RegistryWow64_64Key,
    }
}

/// The rights to an object: those of a file or directory, or those of a registry key.
pub open spec fn object_access_mask(
    view: Option<RegistryView>,
    write: bool,
    execute: bool,
    is_dir: bool,
) -> u32 {
    match view {
        None => crate::access::file_access_mask(write, execute, is_dir),
        Some(_) => crate::access::registry_access_mask(write, execute),
    }
}

impl ObjectType {
    /// The number by which the system knows the kind.
    pub fn code(self) -> (r: i32)
        ensures
            r == object_type_code(self),
    {
        let codes = load_object_type_codes();
        match self {
            ObjectType::FileObject => codes.file_object,
            ObjectType::RegistryKey => codes.registry_key,
            ObjectType::RegistryWow64_32Key => codes.registry_wow64_32key,
            ObjectType::RegistryWow64_64Key => codes.registry_wow64_64key,
        }
    }
}

impl RegistryView {
    /// The kind of object that a key in the view is.
    pub fn object_type(self) -> (r: ObjectType)
        ensures
            r == view_object_type(Some(self)),
    {
        match self {
            RegistryView::Native => ObjectType::RegistryKey,
            RegistryView::Wow64_32 => ObjectType::RegistryWow64_32Key,
            RegistryView::Wow64_64 => ObjectType::RegistryWow64_64Key,
        }
    }
}

/// What the path of an exception names.
#[derive(Debug)]
pub enum PathType {
    Filesystem(WideString),
    Registry(WideString),
    RegistryWow64_32(WideString),
    RegistryWow64_64(WideString),
}

/// What a `PathType` says.
pub struct PathTypeView {
    /// The view of the registry, or none for the file system.
    pub registry: Option<RegistryView>,
    pub path: Seq<u16>,
}

impl View for PathType {
    type V = PathTypeView;

    open spec fn view(&self) -> PathTypeView {
        match self {
            PathType::Filesystem(path) => PathTypeView { registry: None, path: path@ },
            PathType::Registry(path) => PathTypeView {
                registry: Some(RegistryView::Native),
                path: path@,
            },
            PathType::RegistryWow64_32(path) => PathTypeView {
                registry: Some(RegistryView::Wow64_32),
                path: path@,
            },
            PathType::RegistryWow64_64(path) => PathTypeView {
                registry: Some(RegistryView::Wow64_64),
                path: path@,
            },
        }
    }
}

/// What the path of an exception names, where `canonical` is its canonical form in the file
/// system, if it has one. A registry path stands for itself, prefix and all.
pub open spec fn exception_path_type(path: Seq<u16>, canonical: Option<Seq<u16>>) -> PathTypeView {
    match path_registry_view(path) {
        Some(view) => PathTypeView { registry: Some(view), path },
        None => PathTypeView {
            registry: None,
            path: match canonical {
                Some(canonical) => canonical,
                None => path,
            },
        },
    }
}

/// The units of a string that may be there.
pub open spec fn optional_view(string: Option<WideString>) -> Option<Seq<u16>> {
    match string {
        Some(string) => Some(string@),
        None => None,
    }
}

impl Clone for PathType {
    fn clone(&self) -> (r: Self)
        ensures
            r@ == self@,
    {
        match self {
            PathType::Filesystem(path) => PathType::Filesystem(path.clone()),
            PathType::Registry(path) => PathType::Registry(path.clone()),
            PathType::RegistryWow64_32(path) => PathType::RegistryWow64_32(path.clone()),
            PathType::RegistryWow64_64(path) => PathType::RegistryWow64_64(path.clone()),
        }
    }
}

impl PathType {
    /// What the path of an exception names: a registry key by its prefix, and a file or
    /// directory otherwise. `canonical` is the canonical form of the path in the file system, if
    /// it has one.
    pub fn from_exception(path: &WideString, canonical: Option<WideString>) -> (r: PathType)
        ensures
            r@ == exception_path_type(path@, optional_view(canonical)),
            is_ascii_path(path@) ==> names_by_prefix(path@, r@.registry),
    {
        match RegistryView::of_path(path) {
            Some(RegistryView::Native) => PathType::Registry(path.clone()),
            Some(RegistryView::Wow64_32) => PathType::RegistryWow64_32(path.clone()),
            Some(RegistryView::Wow64_64) => PathType::RegistryWow64_64(path.clone()),
            None => match canonical {
                Some(canonical) => PathType::Filesystem(canonical),
                None => PathType::Filesystem(path.clone()),
            },
        }
    }

    /// The kind of the object.
    pub fn object_type(&self) -> (r: ObjectType)
        ensures
            r == view_object_type(self@.registry),
    {
        match self {
            PathType::Filesystem(_) => ObjectType::FileObject,
            PathType::Registry(_) => ObjectType::RegistryKey,
            PathType::RegistryWow64_32(_) => ObjectType::RegistryWow64_32Key,
            PathType::RegistryWow64_64(_) => ObjectType::RegistryWow64_64Key,
        }
    }

    /// The view of the registry that a key is in; none for a file or directory.
    pub fn registry(&self) -> (r: Option<RegistryView>)
        ensures
            r == self@.registry,
    {
        match self {
            PathType::Filesystem(_) => None,
            PathType::Registry(_) => Some(RegistryView::Native),
            PathType::RegistryWow64_32(_) => Some(RegistryView::Wow64_32),
            PathType::RegistryWow64_64(_) => Some(RegistryView::Wow64_64),
        }
    }

    /// Whether two paths name the same object: of the same kind, and with the same units.
    pub fn same(&self, other: &PathType) -> (r: bool)
        ensures
            r == (self@ == other@),
    {
        match (self, other) {
            (PathType::Filesystem(a), PathType::Filesystem(b)) => a.same(b),
            (PathType::Registry(a), PathType::Registry(b)) => a.same(b),
            (PathType::RegistryWow64_32(a), PathType::RegistryWow64_32(b)) => a.same(b),
            (PathType::RegistryWow64_64(a), PathType::RegistryWow64_64(b)) => a.same(b),
            _ => false,
        }
    }

    /// The path of the object.
    pub fn path(&self) -> (r: WideString)
        ensures
            r@ == self@.path,
    {
        match self {
            PathType::Filesystem(path) => path.clone(),
            PathType::Registry(path) => path.clone(),
            PathType::RegistryWow64_32(path) => path.clone(),
            PathType::RegistryWow64_64(path) => path.clone(),
        }
    }

    /// The rights that an exception grants to the object; `is_dir` says whether its path is a
    /// directory.
    pub fn access_mask(&self, write: bool, execute: bool, is_dir: bool) -> (r: u32)
        ensures
            r == object_access_mask(self@.registry, write, execute, is_dir),
    {
        match self {
            PathType::Filesystem(_) => compute_file_access_masks(write, execute, is_dir),
            PathType::Registry(_) => compute_registry_access_masks(write, execute),
            PathType::RegistryWow64_32(_) => compute_registry_access_masks(write, execute),
            PathType::RegistryWow64_64(_) => compute_registry_access_masks(write, execute),
        }
    }
}

} // verus!
