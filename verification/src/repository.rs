//! Repositories of learned corrections.

use vstd::prelude::*;
use crate::domain::{CommandLearning, NaturalLanguageQuery};
use crate::ranking::{is_ranking, rank};
use crate::ratio::Ratio;
use crate::similarity::{
    count_word_hits, lower_word_list, lower_words, overlap, overlap_ratio, word_matches,
};
use crate::string_map::StringMap;
use crate::text::texts;

verus! {

/// Where learned corrections are kept, one per query.
pub trait CommandLearningRepository {
    /// The repository is in a state that its operations can work on.
    spec fn valid(&self) -> bool;

    /// Whether an attempt to keep `learning` may turn this repository into
    /// `after` and end with `outcome`. A repository that says nothing of
    /// how it keeps corrections admits every change and every outcome.
    open spec fn may_save(
        &self,
        after: &Self,
        learning: CommandLearning,
        outcome: Result<(), String>,
    ) -> bool {
        true
    }

    /// Keeps a correction, in place of any kept for the same query.
    fn save(&mut self, learning: CommandLearning) -> (r: Result<(), String>)
        requires
            old(self).valid(),
        ensures
            final(self).valid(),
            old(self).may_save(final(self), learning, r),
    ;

    /// The correction kept for exactly this query.
    fn find_by_query(&self, query: &NaturalLanguageQuery) -> (r: Option<CommandLearning>)
        requires
            self.valid(),
    ;

    /// Every correction that is kept.
    fn find_all(&self) -> (r: Vec<CommandLearning>)
        requires
            self.valid(),
    ;

    /// The corrections whose queries are similar to this query.
    fn find_similar(&self, query: &NaturalLanguageQuery, threshold: &Ratio) -> (r: Vec<
        CommandLearning,
    >)
        requires
            self.valid(),
    ;
}

/// A repository that is kept in a file. The repository holds the
/// corrections in memory; reading and writing the file is left to its owner.
pub struct FileCommandLearningRepository {
    corrections: StringMap<CommandLearning>,
    file_path: String,
}

/// The ranking keys of a search for similar queries: for each kept
/// correction, how many words of the query are words of its query.
pub open spec fn repository_keys(kept: Seq<CommandLearning>, query: Seq<char>) -> Seq<u128> {
    Seq::new(kept.len(), |i: int| word_matches(query, kept[i].query@) as u128)
}

/// Which kept corrections a search for similar queries admits.
pub open spec fn repository_keep(kept: Seq<CommandLearning>, query: Seq<char>, threshold: Ratio) -> Seq<
    bool,
> {
    Seq::new(
        kept.len(),
        |i: int|
            overlap(word_matches(query, kept[i].query@), lower_words(query).len()).ge(threshold),
    )
}

/// The kept corrections whose queries are similar to a query: those whose
/// share of the query's words reaches the threshold, best first, equal ones
/// in the order they are kept in.
pub open spec fn similar_kept(kept: Seq<CommandLearning>, query: Seq<char>, threshold: Ratio) -> Seq<
    CommandLearning,
> {
    let order = crate::ranking::ranking_of(
        repository_keys(kept, query),
        crate::ranking::zero_ties(kept.len()),
        repository_keep(kept, query, threshold),
        kept.len(),
    );
    Seq::new(order.len(), |a: int| kept[order[a] as int])
}

impl FileCommandLearningRepository {
    /// The kept corrections, in the order in which their queries first came.
    pub closed spec fn kept(&self) -> Seq<CommandLearning> {
        self.corrections.values()
    }

    /// The kept corrections by query.
    pub closed spec fn by_query(&self) -> Map<Seq<char>, CommandLearning> {
        self.corrections.map()
    }

    /// The path of the file that the repository is kept in.
    pub closed spec fn path(&self) -> Seq<char> {
        self.file_path@
    }

    /// No query is kept twice.
    pub closed spec fn well_formed(&self) -> bool {
        self.corrections.well_formed()
    }

    /// An empty repository that is kept in the file at `file_path`.
    pub fn new(file_path: &str) -> (r: Self)
        ensures
            r.well_formed(),
            r.kept().len() == 0,
            r.by_query() == Map::<Seq<char>, CommandLearning>::empty(),
            r.path() == file_path@,
    {
        FileCommandLearningRepository {
            corrections: StringMap::new(),
            file_path: file_path.to_owned(),
        }
    }

    /// The path of the file that the repository is kept in.
    pub fn file_path(&self) -> (r: &str)
        ensures
            r@ == self.path(),
    {
        self.file_path.as_str()
    }

    /// How many corrections are kept.
    pub fn len(&self) -> (n: usize)
        ensures
            n == self.kept().len(),
    {
        self.corrections.len()
    }

    /// Keeps a correction, in place of any kept for the same query.
    pub fn insert(&mut self, learning: CommandLearning)
        requires
            old(self).well_formed(),
        ensures
            final(self).well_formed(),
            final(self).by_query() == old(self).by_query().insert(learning.query@, learning),
            final(self).path() == old(self).path(),
    {
        let key = learning.query.clone();
        self.corrections.insert(key, learning);
    }

    /// The correction kept for exactly the query `query`.
    pub fn get(&self, query: &str) -> (r: Option<&CommandLearning>)
        requires
            self.well_formed(),
        ensures
            match r {
                Some(l) => self.by_query().contains_key(query@) && *l == self.by_query()[query@],
                None => !self.by_query().contains_key(query@),
            },
    {
        self.corrections.get(query)
    }

    /// Copies of every correction that is kept, in order.
    pub fn all(&self) -> (r: Vec<CommandLearning>)
        ensures
            r@ == self.kept(),
    {
        let mut r: Vec<CommandLearning> = Vec::new();
        let n = self.corrections.len();
        let mut i: usize = 0;
        while i < n
            invariant
                i <= n,
                n == self.corrections.entries().len(),
                r@ == self.kept().take(i as int),
            decreases n - i,
        {
            r.push(self.corrections.value_at(i).duplicate());
            i = i + 1;
        }
        r
    }

    /// The positions of the kept corrections whose queries are similar to
    /// `query`: those whose share of the query's words reaches the
    /// threshold, best first, equal ones in the order they are kept in.
    pub fn similar_positions(&self, query: &str, threshold: &Ratio) -> (r: Vec<usize>)
        ensures
            is_ranking(
                r@,
                repository_keys(self.kept(), query@),
                repository_keep(self.kept(), query@, *threshold),
                self.kept().len(),
            ),
    {
        let query_words = lower_word_list(query);
        let n = self.corrections.len();
        let mut keys: Vec<u128> = Vec::new();
        let mut keep: Vec<bool> = Vec::new();
        let mut i: usize = 0;
        while i < n
            invariant
                i <= n,
                n == self.corrections.entries().len(),
                n == self.kept().len(),
                texts(query_words@) == lower_words(query@),
                keys@.len() == i,
                keep@.len() == i,
                forall|k: int|
                    0 <= k < i ==> #[trigger] keys@[k] == repository_keys(self.kept(), query@)[k],
                forall|k: int|
                    0 <= k < i ==> #[trigger] keep@[k] == repository_keep(
                        self.kept(),
                        query@,
                        *threshold,
                    )[k],
            decreases n - i,
        {
            let l = self.corrections.value_at(i);
            let other = lower_word_list(l.query.as_str());
            let hits = count_word_hits(&query_words, &other);
            let score = overlap_ratio(hits, query_words.len());
            keys.push(hits as u128);
            keep.push(score.at_least(threshold));
            i = i + 1;
        }
        rank(&keys, &keep, n)
    }
}

impl CommandLearningRepository for FileCommandLearningRepository {
    open spec fn valid(&self) -> bool {
        self.well_formed()
    }

    /// Keeping a correction always succeeds, and puts the correction in the
    /// place of any kept for the same query.
    open spec fn may_save(
        &self,
        after: &Self,
        learning: CommandLearning,
        outcome: Result<(), String>,
    ) -> bool {
        outcome is Ok && after.by_query() == self.by_query().insert(learning.query@, learning)
    }

    fn save(&mut self, learning: CommandLearning) -> (r: Result<(), String>)
        ensures
            r is Ok,
            final(self).by_query() == old(self).by_query().insert(learning.query@, learning),
    {
        self.insert(learning);
        Ok(())
    }

    fn find_by_query(&self, query: &NaturalLanguageQuery) -> (r: Option<CommandLearning>)
        ensures
            match r {
                Some(l) => self.by_query().contains_key(query.text@) && l
                    == self.by_query()[query.text@],
                None => !self.by_query().contains_key(query.text@),
            },
    {
        match self.get(query.as_str()) {
            Some(l) => Some(l.duplicate()),
            None => None,
        }
    }

    fn find_all(&self) -> (r: Vec<CommandLearning>)
        ensures
            r@ == self.kept(),
    {
        self.all()
    }

    fn find_similar(&self, query: &NaturalLanguageQuery, threshold: &Ratio) -> (r: Vec<
        CommandLearning,
    >)
        ensures
            r@ == similar_kept(self.kept(), query.text@, *threshold),
    {
        let order = self.similar_positions(query.as_str(), threshold);
        proof {
            crate::ranking::lemma_plain_ranking(
                order@,
                repository_keys(self.kept(), query.text@),
                repository_keep(self.kept(), query.text@, *threshold),
                self.kept().len(),
            );
        }
        let mut r: Vec<CommandLearning> = Vec::new();
        let mut a: usize = 0;
        while a < order.len()
            invariant
                a <= order.len(),
                self.kept().len() == self.corrections.entries().len(),
                forall|b: int| 0 <= b < order@.len() ==> (#[trigger] order@[b]) < self.kept().len(),
                r@.len() == a,
                forall|b: int| 0 <= b < a ==> #[trigger] r@[b] == self.kept()[order@[b] as int],
            decreases order.len() - a,
        {
            r.push(self.corrections.value_at(order[a]).duplicate());
            a = a + 1;
        }
        r
    }
}

} // verus!
