use vstd::prelude::*;

verus! {

/// One owned title: the identifier that the catalog service assigned to it,
/// and its display name.
pub struct Game {
    pub appid: u32,
    pub name: String,
}

impl Game {
    /// The entry as a plain pair of identifier and name.
    pub open spec fn pair(&self) -> (u32, Seq<char>) {
        (self.appid, self.name@)
    }
}

/// The entries of a slice of games, in order, as plain pairs.
pub open spec fn pairs_of(games: Seq<Game>) -> Seq<(u32, Seq<char>)> {
    games.map_values(|g: Game| g.pair())
}

/// `records` holds the entries of `entries`, one for one and in the same order.
pub open spec fn records_match(entries: Seq<(u32, Seq<char>)>, records: Seq<(u32, String)>) -> bool {
    &&& entries.len() == records.len()
    &&& forall|i: int| 0 <= i < records.len() ==> #[trigger] entries[i] == (records[i].0, records[i].1@)
}

/// Writing a catalog out as records and reading those records back gives the
/// same entries in the same order.
pub proof fn lemma_records_round_trip(
    written: Seq<(u32, Seq<char>)>,
    records: Seq<(u32, String)>,
    read: Seq<(u32, Seq<char>)>,
)
    requires
        records_match(written, records),
        records_match(read, records),
    ensures
        read == written,
{
    assert(read =~= written);
}

/// The owned titles, in the order in which the catalog service reported them.
/// A catalog is never edited in place; a refresh replaces it whole.
pub struct Catalog {
    games: Vec<Game>,
}

impl View for Catalog {
    type V = Seq<(u32, Seq<char>)>;

    closed spec fn view(&self) -> Seq<(u32, Seq<char>)> {
        pairs_of(self.games@)
    }
}

impl Catalog {
    /// A catalog with no entries.
    pub fn empty() -> (c: Catalog)
        ensures
            c@ == Seq::<(u32, Seq<char>)>::empty(),
    {
        Catalog { games: Vec::new() }
    }

    /// Builds a catalog from (identifier, name) records, keeping every record
    /// and their order: nothing is dropped, merged or sorted.
    pub fn from_records(records: Vec<(u32, String)>) -> (c: Catalog)
        ensures
            records_match(c@, records@),
    {
        let mut games: Vec<Game> = Vec::new();
        let mut i: usize = 0;
        while i < records.len()
            invariant
                i <= records@.len(),
                games@.len() == i,
                forall|k: int| 0 <= k < i ==> #[trigger] games@[k].pair() == (records@[k].0, records@[k].1@),
            decreases records@.len() - i,
        {
            let appid = records[i].0;
            let name = records[i].1.clone();
            games.push(Game { appid, name });
            i = i + 1;
        }
        proof {
            assert(pairs_of(games@).len() == records@.len());
        }
        Catalog { games }
    }

    /// The entries, in catalog order.
    pub fn games(&self) -> (r: &[Game])
        ensures
            pairs_of(r@) == self@,
    {
        self.games.as_slice()
    }

    /// The (identifier, name) records of the catalog, in catalog order.
    pub fn to_records(&self) -> (r: Vec<(u32, String)>)
        ensures
            records_match(self@, r@),
    {
        let mut records: Vec<(u32, String)> = Vec::new();
        let mut i: usize = 0;
        while i < self.games.len()
            invariant
                i <= self.games@.len(),
                records@.len() == i,
                forall|k: int| 0 <= k < i ==> #[trigger] self.games@[k].pair() == (records@[k].0, records@[k].1@),
            decreases self.games@.len() - i,
        {
            let appid = self.games[i].appid;
            let name = self.games[i].name.clone();
            records.push((appid, name));
            i = i + 1;
        }
        records
    }

    /// The number of entries.
    pub fn len(&self) -> (n: usize)
        ensures
            n == self@.len(),
    {
        self.games.len()
    }

    /// The display names of all entries, in catalog order.
    pub fn names(&self) -> (r: Vec<String>)
        ensures
            r@.len() == self@.len(),
            forall|i: int| 0 <= i < r@.len() ==> #[trigger] r@[i]@ == self@[i].1,
    {
        let mut names: Vec<String> = Vec::new();
        let mut i: usize = 0;
        while i < self.games.len()
            invariant
                i <= self.games@.len(),
                names@.len() == i,
                forall|k: int| 0 <= k < i ==> #[trigger] names@[k]@ == self.games@[k].name@,
            decreases self.games@.len() - i,
        {
            names.push(self.games[i].name.clone());
            i = i + 1;
        }
        names
    }
}

} // verus!
