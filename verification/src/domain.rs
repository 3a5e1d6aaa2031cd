use vstd::prelude::*;

verus! {

/// A Battle.net game region that the launcher can connect to.
#[derive(Debug, Clone, Copy, PartialEq, Eq, Structural, Hash)]
pub enum Region {
    Americas,
    Europe,
    Asia,
}

impl Default for Region {
    fn default() -> (r: Self)
        ensures
            r == Region::Americas,
    {
        Region::Americas
    }
}

impl Region {
    /// Every region, in the order in which the launcher shows them.
    pub const ALL: [Region; 3] = [Region::Americas, Region::Europe, Region::Asia];

    /// Every region, in the order in which the launcher shows them.
    pub open spec fn spec_all() -> Seq<Region> {
        seq![Region::Americas, Region::Europe, Region::Asia]
    }

    /// The position of the region in the launcher's list.
    pub open spec fn index(self) -> nat {
        match self {
            Region::Americas => 0,
            Region::Europe => 1,
            Region::Asia => 2,
        }
    }

    /// The region's human readable name.
    pub open spec fn spec_name(self) -> Seq<char> {
        match self {
            Region::Americas => "Americas"@,
            Region::Europe => "Europe"@,
            Region::Asia => "Asia"@,
        }
    }

    /// The region's flag emoji.
    pub open spec fn spec_flag(self) -> Seq<char> {
        match self {
            Region::Americas => "\u{1F1FA}\u{1F1F8}"@,
            Region::Europe => "\u{1F1EA}\u{1F1FA}"@,
            Region::Asia => "\u{1F1EF}\u{1F1F5}"@,
        }
    }

    /// The host name of the region's game server.
    pub open spec fn spec_ping_host(self) -> Seq<char> {
        match self {
            Region::Americas => "us.actual.battle.net"@,
            Region::Europe => "eu.actual.battle.net"@,
            Region::Asia => "kr.actual.battle.net"@,
        }
    }

    /// Every region, in the order in which the launcher shows them.
    pub fn all() -> (regions: [Region; 3])
        ensures
            regions@ == Self::spec_all(),
    {
        let regions = [Region::Americas, Region::Europe, Region::Asia];
        assert(regions@ =~= Self::spec_all());
        regions
    }

    /// The region's human readable name, as the launcher shows it and as the
    /// configuration file stores it.
    pub fn name(self) -> (name: &'static str)
        ensures
            name@ == self.spec_name(),
    {
        match self {
            Region::Americas => "Americas",
            Region::Europe => "Europe",
            Region::Asia => "Asia",
        }
    }

    /// The region's flag emoji.
    pub fn flag(self) -> (flag: &'static str)
        ensures
            flag@ == self.spec_flag(),
    {
        match self {
            Region::Americas => "\u{1F1FA}\u{1F1F8}",
            Region::Europe => "\u{1F1EA}\u{1F1FA}",
            Region::Asia => "\u{1F1EF}\u{1F1F5}",
        }
    }

    /// The host name of the region's game server, which is both pinged and
    /// handed to the game as its server address.
    pub fn ping_host(self) -> (host: &'static str)
        ensures
            host@ == self.spec_ping_host(),
    {
        match self {
            Region::Americas => "us.actual.battle.net",
            Region::Europe => "eu.actual.battle.net",
            Region::Asia => "kr.actual.battle.net",
        }
    }

    /// The region whose name is `name`, if there is one.
    pub fn from_name(name: &str) -> (region: Option<Region>)
        ensures
            region == region_named(name@),
    {
        if str_equal(name, "Americas") {
            Some(Region::Americas)
        } else if str_equal(name, "Europe") {
            Some(Region::Europe)
        } else if str_equal(name, "Asia") {
            Some(Region::Asia)
        } else {
            None
        }
    }
}

/// The region that is stored under the name `s`, if there is one.
pub open spec fn region_named(s: Seq<char>) -> Option<Region> {
    if s == "Americas"@ {
        Some(Region::Americas)
    } else if s == "Europe"@ {
        Some(Region::Europe)
    } else if s == "Asia"@ {
        Some(Region::Asia)
    } else {
        None
    }
}

/// Whether two strings hold the same characters.
pub fn str_equal(a: &str, b: &str) -> (eq: bool)
    ensures
        eq == (a@ == b@),
{
    let n = a.unicode_len();
    if n != b.unicode_len() {
        return false;
    }
    let mut i: usize = 0;
    while i < n
        invariant
            n == a@.len(),
            n == b@.len(),
            i <= n,
            forall|j: int| 0 <= j < i ==> a@[j] == b@[j],
        decreases n - i,
    {
        if a.get_char(i) != b.get_char(i) {
            return false;
        }
        i = i + 1;
    }
    assert(a@ =~= b@);
    true
}

/// Distinct regions have distinct names, so a region's name identifies it.
pub proof fn lemma_region_names_distinct(a: Region, b: Region)
    ensures
        a.spec_name() == b.spec_name() <==> a == b,
{
    reveal_strlit("Americas");
    reveal_strlit("Europe");
    reveal_strlit("Asia");
    if a != b {
        assert(a.spec_name().len() != b.spec_name().len() || a.spec_name()[0] != b.spec_name()[0]);
    }
}

/// Reading back the name that a region is stored under gives that region.
pub proof fn lemma_region_name_round_trip(r: Region)
    ensures
        region_named(r.spec_name()) == Some(r),
{
    reveal_strlit("Americas");
    reveal_strlit("Europe");
    reveal_strlit("Asia");
    assert("Americas"@ != "Europe"@ && "Americas"@ != "Asia"@ && "Europe"@ != "Asia"@) by {
        assert("Americas"@.len() != "Europe"@.len());
        assert("Americas"@.len() != "Asia"@.len());
        assert("Europe"@.len() != "Asia"@.len());
    }
}

/// Every region occurs in the launcher's list exactly once, at its index.
pub proof fn lemma_all_regions_listed_once(r: Region)
    ensures
        r.index() < Region::spec_all().len(),
        Region::spec_all()[r.index() as int] == r,
        forall|i: int| 0 <= i < Region::spec_all().len() && Region::spec_all()[i] == r ==> i == r.index(),
{
}

} // verus!
