//! Ad blocking for the browser: a URL is blocked when it contains one of the blocked
//! domain fragments, compared as UTF-8 bytes the way `str::contains` compares.
use vstd::prelude::*;
use vstd::utf8::encode_utf8;

verus! {

/// `needle` occurs in `hay` starting at index `i`.
pub open spec fn occurs_at(hay: Seq<u8>, needle: Seq<u8>, i: int) -> bool {
    0 <= i && i + needle.len() <= hay.len() && hay.subrange(i, i + needle.len()) == needle
}

pub open spec fn contains_bytes(hay: Seq<u8>, needle: Seq<u8>) -> bool {
    exists|i: int| occurs_at(hay, needle, i)
}

/// Whether text `t` contains text `p`.
pub open spec fn text_contains(t: Seq<char>, p: Seq<char>) -> bool {
    contains_bytes(encode_utf8(t), encode_utf8(p))
}

fn matches_at(hay: &[u8], needle: &[u8], i: usize) -> (r: bool)
    requires
        i + needle@.len() <= hay@.len(),
    ensures
        r == occurs_at(hay@, needle@, i as int),
{
    let n = needle.len();
    let mut j: usize = 0;
    while j < n
        invariant
            n == needle@.len(),
            i + n <= hay.len(),
            0 <= j <= n,
            forall|k: int| 0 <= k < j ==> hay@[i + k] == needle@[k],
        decreases n - j,
    {
        if hay[i + j] != needle[j] {
            assert(hay@.subrange(i as int, i + n)[j as int] != needle@[j as int]);
            return false;
        }
        j = j + 1;
    }
    assert(hay@.subrange(i as int, i + n) =~= needle@);
    true
}

/// Whether `needle` occurs somewhere in `hay`; the empty needle occurs everywhere.
pub fn find_bytes(hay: &[u8], needle: &[u8]) -> (r: bool)
    ensures
        r == contains_bytes(hay@, needle@),
{
    if needle.len() > hay.len() {
        return false;
    }
    let last = hay.len() - needle.len();
    let mut i: usize = 0;
    loop
        invariant
            last == hay@.len() - needle@.len(),
            0 <= i <= last,
            forall|k: int| 0 <= k < i ==> !occurs_at(hay@, needle@, k),
        decreases last - i,
    {
        if matches_at(hay, needle, i) {
            return true;
        }
        if i == last {
            assert forall|k: int| !occurs_at(hay@, needle@, k) by {
                if 0 <= k <= i {
                }
            }
            return false;
        }
        i = i + 1;
    }
}

pub struct AdBlocker {
    blocked_domains: Vec<String>,
    filters: Vec<String>,
    is_enabled: bool,
}

impl AdBlocker {
    pub closed spec fn domains(&self) -> Seq<String> {
        self.blocked_domains@
    }

    pub closed spec fn enabled(&self) -> bool {
        self.is_enabled
    }

    /// Whether the blocker refuses `url`.
    pub open spec fn blocks(&self, url: Seq<char>) -> bool {
        self.enabled() && exists|k: int|
            0 <= k < self.domains().len() && text_contains(url, (#[trigger] self.domains()[k])@)
    }

    /// An enabled blocker with the default domain fragments.
    pub fn new() -> (r: Self)
        ensures
            r.enabled(),
            r.domains().len() == 10,
            r.domains()[0]@ == "doubleclick.net"@,
            r.domains()[1]@ == "googleads.com"@,
            r.domains()[2]@ == "adservice.google.com"@,
            r.domains()[3]@ == "facebook.com/ads"@,
            r.domains()[4]@ == "twitter.com/ads"@,
            r.domains()[5]@ == "tracking."@,
            r.domains()[6]@ == "analytics."@,
            r.domains()[7]@ == "advertise."@,
            r.domains()[8]@ == "banner."@,
            r.domains()[9]@ == "popup."@,
    {
        let mut blocker = AdBlocker { blocked_domains: Vec::new(), filters: Vec::new(), is_enabled: true };
        blocker.load_default_filters();
        blocker
    }

    fn load_default_filters(&mut self)
        requires
            old(self).blocked_domains@.len() == 0,
        ensures
            final(self).is_enabled == old(self).is_enabled,
            final(self).blocked_domains@.len() == 10,
            final(self).blocked_domains@[0]@ == "doubleclick.net"@,
            final(self).blocked_domains@[1]@ == "googleads.com"@,
            final(self).blocked_domains@[2]@ == "adservice.google.com"@,
            final(self).blocked_domains@[3]@ == "facebook.com/ads"@,
            final(self).blocked_domains@[4]@ == "twitter.com/ads"@,
            final(self).blocked_domains@[5]@ == "tracking."@,
            final(self).blocked_domains@[6]@ == "analytics."@,
            final(self).blocked_domains@[7]@ == "advertise."@,
            final(self).blocked_domains@[8]@ == "banner."@,
            final(self).blocked_domains@[9]@ == "popup."@,
    {
        self.blocked_domains.push("doubleclick.net".to_string());
        self.blocked_domains.push("googleads.com".to_string());
        self.blocked_domains.push("adservice.google.com".to_string());
        self.blocked_domains.push("facebook.com/ads".to_string());
        self.blocked_domains.push("twitter.com/ads".to_string());
        self.blocked_domains.push("tracking.".to_string());
        self.blocked_domains.push("analytics.".to_string());
        self.blocked_domains.push("advertise.".to_string());
        self.blocked_domains.push("banner.".to_string());
        self.blocked_domains.push("popup.".to_string());
        self.filters.push("||ads.example.com^".to_string());
        self.filters.push("||tracking.example.com^".to_string());
    }

    /// Whether `url` is an ad: the blocker is on and the URL contains a blocked fragment.
    pub fn should_block(&self, url: &str) -> (r: bool)
        ensures
            r == self.blocks(url@),
    {
        if !self.is_enabled {
            return false;
        }
        let u = url.as_bytes();
        let n = self.blocked_domains.len();
        let mut k: usize = 0;
        while k < n
            invariant
                n == self.blocked_domains@.len(),
                0 <= k <= n,
                self.is_enabled,
                u@ == encode_utf8(url@),
                forall|j: int| 0 <= j < k ==> !text_contains(url@, (#[trigger] self.blocked_domains@[j])@),
            decreases n - k,
        {
            let ds = self.blocked_domains[k].as_str();
            let d = ds.as_bytes();
            assert(d@ == encode_utf8(self.blocked_domains@[k as int]@));
            if find_bytes(u, d) {
                assert(text_contains(url@, self.blocked_domains@[k as int]@));
                assert(self.blocks(url@)) by {
                    assert(text_contains(url@, self.domains()[k as int]@));
                }
                return true;
            }
            k = k + 1;
        }
        false
    }

    pub fn set_enabled(&mut self, on: bool)
        ensures
            final(self).enabled() == on,
            final(self).domains() == old(self).domains(),
    {
        self.is_enabled = on;
    }
}

} // verus!
