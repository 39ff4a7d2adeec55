//! Image names and image references, held as validated text.
use vstd::prelude::*;

verus! {

/// A lower-case letter or a digit.
pub open spec fn is_lower_alnum(c: char) -> bool {
    ('a' <= c && c <= 'z') || ('0' <= c && c <= '9')
}

/// A character that may stand in an image name.
pub open spec fn is_name_char(c: char) -> bool {
    is_lower_alnum(c) || c == '.' || c == '_' || c == '-' || c == '/'
}

/// A repository name: path components of lower-case letters, digits and
/// the separators `.`, `_`, `-`, joined by `/`; every component starts and
/// ends with a letter or a digit.
pub open spec fn valid_image_name(s: Seq<char>) -> bool {
    &&& s.len() > 0
    &&& is_lower_alnum(s[0])
    &&& is_lower_alnum(s[s.len() - 1])
    &&& forall|i: int| 0 <= i < s.len() ==> #[trigger] is_name_char(s[i])
    &&& forall|i: int|
        0 < i < s.len() - 1 && #[trigger] s[i] == '/' ==> is_lower_alnum(s[i - 1]) && is_lower_alnum(
            s[i + 1],
        )
}

/// A letter (either case), a digit or `_`.
pub open spec fn is_word_char(c: char) -> bool {
    ('a' <= c && c <= 'z') || ('A' <= c && c <= 'Z') || ('0' <= c && c <= '9') || c == '_'
}

/// A character that may stand in a tag after its first one.
pub open spec fn is_tag_char(c: char) -> bool {
    is_word_char(c) || c == '.' || c == '-'
}

/// The longest tag a reference may carry.
pub const MAX_TAG_LEN: usize = 128;

/// A tag: one to 128 characters, the first a word character, the others
/// word characters, `.` or `-`.
pub open spec fn valid_tag(s: Seq<char>) -> bool {
    &&& 0 < s.len() <= MAX_TAG_LEN
    &&& is_word_char(s[0])
    &&& forall|i: int| 0 <= i < s.len() ==> #[trigger] is_tag_char(s[i])
}

/// A character of a digest's algorithm part.
pub open spec fn is_algorithm_char(c: char) -> bool {
    is_lower_alnum(c) || c == '+' || c == '.' || c == '_' || c == '-'
}

/// A character of a digest's encoded part.
pub open spec fn is_encoded_char(c: char) -> bool {
    is_word_char(c) || c == '=' || c == '-'
}

/// `s` is `algorithm:encoded`, split at the colon at `k`.
pub open spec fn digest_split_at(s: Seq<char>, k: int) -> bool {
    &&& 0 < k < s.len() - 1
    &&& s[k] == ':'
    &&& is_lower_alnum(s[0])
    &&& forall|i: int| 0 <= i < k ==> #[trigger] is_algorithm_char(s[i])
    &&& forall|i: int| k < i < s.len() ==> #[trigger] is_encoded_char(s[i])
}

/// A content digest written as a reference: `algorithm:encoded`.
pub open spec fn valid_digest_reference(s: Seq<char>) -> bool {
    exists|k: int| #[trigger] digest_split_at(s, k)
}

/// A validated repository name.
pub struct ImageName {
    name: String,
}

impl View for ImageName {
    type V = Seq<char>;

    closed spec fn view(&self) -> Seq<char> {
        self.name@
    }
}

impl ImageName {
    #[verifier::type_invariant]
    spec fn is_valid(&self) -> bool {
        valid_image_name(self.name@)
    }
}

fn check_image_name(s: &str) -> (r: bool)
    ensures
        r == valid_image_name(s@),
{
    let n = s.unicode_len();
    if n == 0 {
        return false;
    }
    let first = s.get_char(0);
    let last = s.get_char(n - 1);
    if !(('a' <= first && first <= 'z') || ('0' <= first && first <= '9')) {
        return false;
    }
    if !(('a' <= last && last <= 'z') || ('0' <= last && last <= '9')) {
        return false;
    }
    let mut prev = first;
    let mut i: usize = 0;
    while i < n
        invariant
            n == s@.len(),
            0 < n,
            0 <= i <= n,
            is_lower_alnum(s@[0]),
            is_lower_alnum(s@[n - 1]),
            i > 0 ==> prev == s@[i - 1],
            forall|j: int| 0 <= j < i ==> #[trigger] is_name_char(s@[j]),
            forall|j: int|
                0 < j < n - 1 && j < i && #[trigger] s@[j] == '/' ==> is_lower_alnum(s@[j - 1])
                    && is_lower_alnum(s@[j + 1]),
        decreases n - i,
    {
        let c = s.get_char(i);
        let alnum = ('a' <= c && c <= 'z') || ('0' <= c && c <= '9');
        if !(alnum || c == '.' || c == '_' || c == '-' || c == '/') {
            assert(!is_name_char(s@[i as int]));
            return false;
        }
        if c == '/' {
            if i == 0 || i + 1 >= n {
                return false;
            }
            let next = s.get_char(i + 1);
            let prev_ok = ('a' <= prev && prev <= 'z') || ('0' <= prev && prev <= '9');
            let next_ok = ('a' <= next && next <= 'z') || ('0' <= next && next <= '9');
            if !(prev_ok && next_ok) {
                assert(s@[i as int] == '/');
                return false;
            }
        }
        prev = c;
        i = i + 1;
    }
    true
}

impl ImageName {
    /// Accepts `s` exactly when it is a valid repository name.
    pub fn parse(s: &str) -> (r: Option<ImageName>)
        ensures
            r is Some <==> valid_image_name(s@),
            r matches Some(n) ==> n@ == s@,
    {
        if check_image_name(s) {
            Some(ImageName { name: s.to_string() })
        } else {
            None
        }
    }

    /// The name as text.
    pub fn as_str(&self) -> (r: &str)
        ensures
            r@ == self@,
            valid_image_name(r@),
    {
        proof {
            use_type_invariant(self);
        }
        self.name.as_str()
    }
}

/// A tag or a digest naming one version of an image's manifest.
pub enum ImageReference {
    Tag(String),
    Digest(String),
}

impl View for ImageReference {
    type V = Seq<char>;

    open spec fn view(&self) -> Seq<char> {
        match self {
            ImageReference::Tag(t) => t@,
            ImageReference::Digest(d) => d@,
        }
    }
}

impl ImageReference {
    /// What a well-formed reference holds: a valid tag, or a valid digest.
    pub open spec fn wf(&self) -> bool {
        match self {
            ImageReference::Tag(t) => valid_tag(t@),
            ImageReference::Digest(d) => valid_digest_reference(d@),
        }
    }

    /// Reads a reference: text with a colon must be a digest, text without
    /// one must be a tag; anything else is refused.
    pub fn parse(s: &str) -> (r: Option<ImageReference>)
        ensures
            r is Some <==> valid_tag(s@) || valid_digest_reference(s@),
            r matches Some(v) ==> v.wf() && v@ == s@ && (v is Digest <==> s@.contains(':')),
    {
        let n = s.unicode_len();
        let mut colon: usize = n;
        let mut i: usize = 0;
        while i < n
            invariant
                n == s@.len(),
                0 <= i <= n,
                colon == n || (colon < i && s@[colon as int] == ':'),
                colon == n ==> forall|j: int| 0 <= j < i ==> s@[j] != ':',
                colon < n ==> forall|j: int| 0 <= j < colon ==> s@[j] != ':',
            decreases n - i,
        {
            if colon == n && s.get_char(i) == ':' {
                colon = i;
            }
            i = i + 1;
        }
        if colon == n {
            proof {
                assert(!s@.contains(':'));
                if valid_digest_reference(s@) {
                    let k = choose|k: int| digest_split_at(s@, k);
                    assert(s@[k] == ':');
                }
            }
            if check_tag(s) {
                Some(ImageReference::Tag(s.to_string()))
            } else {
                None
            }
        } else {
            proof {
                assert(s@[colon as int] == ':');
                assert(!is_tag_char(s@[colon as int]));
                assert(!valid_tag(s@));
            }
            if check_digest_at(s, colon) {
                proof {
                    assert(digest_split_at(s@, colon as int));
                }
                Some(ImageReference::Digest(s.to_string()))
            } else {
                proof {
                    if valid_digest_reference(s@) {
                        let k = choose|k: int| digest_split_at(s@, k);
                        if k < colon {
                            assert(s@[k] == ':');
                        } else if k > colon {
                            assert(!is_algorithm_char(s@[colon as int]));
                        }
                    }
                }
                None
            }
        }
    }

    /// The reference in its canonical text form.
    pub fn as_str(&self) -> (r: &str)
        ensures
            r@ == self@,
    {
        match self {
            ImageReference::Tag(t) => t.as_str(),
            ImageReference::Digest(d) => d.as_str(),
        }
    }
}

fn check_tag(s: &str) -> (r: bool)
    ensures
        r == valid_tag(s@),
{
    let n = s.unicode_len();
    if n == 0 || n > MAX_TAG_LEN {
        return false;
    }
    let first = s.get_char(0);
    if !(('a' <= first && first <= 'z') || ('A' <= first && first <= 'Z') || ('0' <= first
        && first <= '9') || first == '_') {
        return false;
    }
    let mut i: usize = 0;
    while i < n
        invariant
            n == s@.len(),
            0 <= i <= n,
            forall|j: int| 0 <= j < i ==> #[trigger] is_tag_char(s@[j]),
        decreases n - i,
    {
        let c = s.get_char(i);
        if !(('a' <= c && c <= 'z') || ('A' <= c && c <= 'Z') || ('0' <= c && c <= '9') || c
            == '_' || c == '.' || c == '-') {
            assert(!is_tag_char(s@[i as int]));
            return false;
        }
        i = i + 1;
    }
    true
}

fn check_digest_at(s: &str, k: usize) -> (r: bool)
    requires
        k < s@.len(),
        s@[k as int] == ':',
    ensures
        r == digest_split_at(s@, k as int),
{
    let n = s.unicode_len();
    if k == 0 || k + 1 >= n {
        return false;
    }
    let first = s.get_char(0);
    if !(('a' <= first && first <= 'z') || ('0' <= first && first <= '9')) {
        return false;
    }
    let mut i: usize = 0;
    while i < n
        invariant
            n == s@.len(),
            0 < k < n - 1,
            0 <= i <= n,
            forall|j: int| 0 <= j < i && j < k ==> #[trigger] is_algorithm_char(s@[j]),
            forall|j: int| k < j < i ==> #[trigger] is_encoded_char(s@[j]),
        decreases n - i,
    {
        let c = s.get_char(i);
        if i < k {
            if !(('a' <= c && c <= 'z') || ('0' <= c && c <= '9') || c == '+' || c == '.' || c
                == '_' || c == '-') {
                assert(!is_algorithm_char(s@[i as int]));
                return false;
            }
        } else if i > k {
            if !(('a' <= c && c <= 'z') || ('A' <= c && c <= 'Z') || ('0' <= c && c <= '9') || c
                == '_' || c == '=' || c == '-') {
                assert(!is_encoded_char(s@[i as int]));
                return false;
            }
        }
        i = i + 1;
    }
    true
}

} // verus!
