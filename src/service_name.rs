//! Service identities: the registrable name of each privilege tier.

use vstd::prelude::*;

verus! {

pub const SERVICE_TYPE_ADMIN: u32 = 1;

pub const SERVICE_TYPE_ADMIN2: u32 = 2;

pub const SERVICE_TYPE_MANAGER: u32 = 3;

pub const SERVICE_TYPE_USER: u32 = 4;

pub const SERVICE_TYPE_SYSTEM: u32 = 5;

/// The five defined tier selectors.
pub open spec fn is_service_type(service_type: u32) -> bool {
    service_type == SERVICE_TYPE_ADMIN || service_type == SERVICE_TYPE_ADMIN2
        || service_type == SERVICE_TYPE_MANAGER || service_type == SERVICE_TYPE_USER
        || service_type == SERVICE_TYPE_SYSTEM
}

/// The NUL-terminated name under which a tier is registered; an undefined
/// selector gets the empty NUL-terminated name.
pub open spec fn service_name(service_type: u32) -> Seq<char> {
    if service_type == SERVICE_TYPE_ADMIN {
        "prepo:a\0"@
    } else if service_type == SERVICE_TYPE_ADMIN2 {
        "prepo:a2\0"@
    } else if service_type == SERVICE_TYPE_MANAGER {
        "prepo:m\0"@
    } else if service_type == SERVICE_TYPE_USER {
        "prepo:u\0"@
    } else if service_type == SERVICE_TYPE_SYSTEM {
        "prepo:s\0"@
    } else {
        "\0"@
    }
}

/// `s` with every leading and trailing NUL character removed.
pub open spec fn trim_nul(s: Seq<char>) -> Seq<char>
    decreases s.len(),
{
    if s.len() > 0 && s[0] == '\0' {
        trim_nul(s.drop_first())
    } else if s.len() > 0 && s.last() == '\0' {
        trim_nul(s.drop_last())
    } else {
        s
    }
}

/// The name of a tier as it is displayed: its registration name without padding.
pub open spec fn display_name(service_type: u32) -> Seq<char> {
    trim_nul(service_name(service_type))
}

/// Registration name of the tier `service_type`.
pub fn get_service_name(service_type: u32) -> (r: &'static str)
    ensures
        r@ == service_name(service_type),
{
    if service_type == SERVICE_TYPE_ADMIN {
        "prepo:a\0"
    } else if service_type == SERVICE_TYPE_ADMIN2 {
        "prepo:a2\0"
    } else if service_type == SERVICE_TYPE_MANAGER {
        "prepo:m\0"
    } else if service_type == SERVICE_TYPE_USER {
        "prepo:u\0"
    } else if service_type == SERVICE_TYPE_SYSTEM {
        "prepo:s\0"
    } else {
        "\0"
    }
}

/// Removes the leading and trailing NUL characters of `s`.
pub fn trim_nul_chars(s: &'static str) -> (r: &'static str)
    ensures
        r@ == trim_nul(s@),
{
    let n = s.unicode_len();
    let mut i: usize = 0;
    assert(s@.subrange(0, n as int) =~= s@);
    while i < n && s.get_char(i) == '\0'
        invariant
            n == s@.len(),
            i <= n,
            trim_nul(s@) == trim_nul(s@.subrange(i as int, n as int)),
        decreases n - i,
    {
        assert(s@.subrange(i as int, n as int).drop_first() =~= s@.subrange(
            i + 1,
            n as int,
        ));
        i = i + 1;
    }
    let mut j: usize = n;
    while j > i && s.get_char(j - 1) == '\0'
        invariant
            n == s@.len(),
            i <= j <= n,
            i < j ==> s@[i as int] != '\0',
            trim_nul(s@) == trim_nul(s@.subrange(i as int, j as int)),
        decreases j - i,
    {
        assert(s@.subrange(i as int, j as int).drop_last() =~= s@.subrange(
            i as int,
            j - 1,
        ));
        j = j - 1;
    }
    s.substring_char(i, j)
}

/// Display name of the tier `service_type`: its registration name without the
/// NUL padding.
pub fn get_non_null_service_name(service_type: u32) -> (r: &'static str)
    ensures
        r@ == display_name(service_type),
{
    trim_nul_chars(get_service_name(service_type))
}

/// Trimming a name that has content and a single terminating NUL drops exactly
/// the terminator.
proof fn lemma_trim_single_terminator(s: Seq<char>)
    requires
        s.len() >= 2,
        s[0] != '\0',
        s[s.len() - 2] != '\0',
        s.last() == '\0',
    ensures
        trim_nul(s) == s.drop_last(),
{
    let d = s.drop_last();
    assert(d[0] != '\0' && d.last() != '\0');
    assert(trim_nul(d) == d);
}

/// Spells out the registration name and the display name of every selector.
pub proof fn lemma_service_name_values(service_type: u32)
    ensures
        service_type == SERVICE_TYPE_ADMIN ==> service_name(service_type).len() == 8
            && service_name(service_type)[6] == 'a' && display_name(service_type) == "prepo:a"@,
        service_type == SERVICE_TYPE_ADMIN2 ==> service_name(service_type).len() == 9
            && service_name(service_type)[6] == 'a' && display_name(service_type) == "prepo:a2"@,
        service_type == SERVICE_TYPE_MANAGER ==> service_name(service_type).len() == 8
            && service_name(service_type)[6] == 'm' && display_name(service_type) == "prepo:m"@,
        service_type == SERVICE_TYPE_USER ==> service_name(service_type).len() == 8
            && service_name(service_type)[6] == 'u' && display_name(service_type) == "prepo:u"@,
        service_type == SERVICE_TYPE_SYSTEM ==> service_name(service_type).len() == 8
            && service_name(service_type)[6] == 's' && display_name(service_type) == "prepo:s"@,
        !is_service_type(service_type) ==> service_name(service_type).len() == 1
            && display_name(service_type) == Seq::<char>::empty(),
{
    reveal_strlit("prepo:a\0");
    reveal_strlit("prepo:a2\0");
    reveal_strlit("prepo:m\0");
    reveal_strlit("prepo:u\0");
    reveal_strlit("prepo:s\0");
    reveal_strlit("prepo:a");
    reveal_strlit("prepo:a2");
    reveal_strlit("prepo:m");
    reveal_strlit("prepo:u");
    reveal_strlit("prepo:s");
    reveal_strlit("\0");
    let s = service_name(service_type);
    if is_service_type(service_type) {
        lemma_trim_single_terminator(s);
        assert(s.drop_last() =~= trim_nul(s));
    } else {
        assert(s[0] == '\0');
        assert(s.drop_first() =~= Seq::<char>::empty());
        assert(trim_nul(s.drop_first()) == Seq::<char>::empty());
    }
    if service_type == SERVICE_TYPE_ADMIN {
        assert(s.drop_last() =~= "prepo:a"@);
    } else if service_type == SERVICE_TYPE_ADMIN2 {
        assert(s.drop_last() =~= "prepo:a2"@);
    } else if service_type == SERVICE_TYPE_MANAGER {
        assert(s.drop_last() =~= "prepo:m"@);
    } else if service_type == SERVICE_TYPE_USER {
        assert(s.drop_last() =~= "prepo:u"@);
    } else if service_type == SERVICE_TYPE_SYSTEM {
        assert(s.drop_last() =~= "prepo:s"@);
    }
}

/// The service identity map is a bijection between the five tiers and their
/// names: every tier has a non-empty name, no two tiers share a registration
/// name, and any other selector gets the empty name instead of a failure.
pub proof fn lemma_service_names_bijective(a: u32, b: u32)
    ensures
        is_service_type(a) ==> display_name(a).len() > 0,
        is_service_type(a) && is_service_type(b) && service_name(a) == service_name(b) ==> a
            == b,
        is_service_type(a) && !is_service_type(b) ==> service_name(a) != service_name(b),
        !is_service_type(a) ==> display_name(a) == Seq::<char>::empty(),
{
    lemma_service_name_values(a);
    lemma_service_name_values(b);
    reveal_strlit("prepo:a");
    reveal_strlit("prepo:a2");
    reveal_strlit("prepo:m");
    reveal_strlit("prepo:u");
    reveal_strlit("prepo:s");
}

} // verus!
