//! Cache directives and the header text that they are written as.

use crate::text::{decimal, is_plain_text, lemma_decimal_digits, lemma_plain_text_concat, push_decimal};
use vstd::prelude::*;

verus! {

/// Who may store a response.
#[derive(Clone, Copy, Debug, PartialEq, Eq, Structural)]
pub enum CacheType {
    Public,
    Private,
}

/// A cache directive: how long a response may be kept, by whom, and under
/// which conditions.
#[derive(Clone, Copy, Debug)]
pub struct Cache {
    pub max_age: u64,
    pub no_cache: bool,
    pub cache_type: CacheType,
    pub must_revalidate: bool,
}

/// The token of a cache type.
pub open spec fn cache_type_text(t: CacheType) -> Seq<char> {
    match t {
        CacheType::Public => "public"@,
        CacheType::Private => "private"@,
    }
}

/// The header text of a directive: `max_age=N`, then `no-cache` if set, then
/// the cache type, then `must-revalidate` if set, joined by commas. A token
/// that is not set leaves no empty slot.
pub open spec fn cache_text(c: Cache) -> Seq<char> {
    "max_age="@ + decimal(c.max_age as nat) + (if c.no_cache {
        ",no-cache"@
    } else {
        Seq::<char>::empty()
    }) + ","@ + cache_type_text(c.cache_type) + (if c.must_revalidate {
        ",must-revalidate"@
    } else {
        Seq::<char>::empty()
    })
}

impl CacheType {
    /// The token of this cache type: `public` or `private`.
    pub fn to_string(&self) -> (s: String)
        ensures
            s@ == cache_type_text(*self),
    {
        match self {
            CacheType::Public => String::from_str("public"),
            CacheType::Private => String::from_str("private"),
        }
    }
}

impl Cache {
    /// The header text of this directive.
    pub fn to_string(&self) -> (s: String)
        ensures
            s@ == cache_text(*self),
    {
        let mut s = String::from_str("max_age=");
        push_decimal(&mut s, self.max_age);
        if self.no_cache {
            s.append(",no-cache");
        }
        s.append(",");
        match self.cache_type {
            CacheType::Public => s.append("public"),
            CacheType::Private => s.append("private"),
        }
        if self.must_revalidate {
            s.append(",must-revalidate");
        }
        assert(s@ =~= cache_text(*self));
        s
    }
}

/// The header text of a directive is plain text.
pub proof fn lemma_cache_text_is_plain(c: Cache)
    ensures
        is_plain_text(cache_text(c)),
{
    reveal_strlit("max_age=");
    reveal_strlit(",no-cache");
    reveal_strlit(",");
    reveal_strlit("public");
    reveal_strlit("private");
    reveal_strlit(",must-revalidate");
    lemma_decimal_digits(c.max_age as nat);
    let a = "max_age="@ + decimal(c.max_age as nat);
    lemma_plain_text_concat("max_age="@, decimal(c.max_age as nat));
    let n = if c.no_cache {
        ",no-cache"@
    } else {
        Seq::<char>::empty()
    };
    lemma_plain_text_concat(a, n);
    lemma_plain_text_concat(a + n, ","@);
    lemma_plain_text_concat(a + n + ","@, cache_type_text(c.cache_type));
    let m = if c.must_revalidate {
        ",must-revalidate"@
    } else {
        Seq::<char>::empty()
    };
    lemma_plain_text_concat(a + n + ","@ + cache_type_text(c.cache_type), m);
}

} // verus!
