//! The configuration builder: an ordered list of directives, and the
//! argument vector that it stands for.

use crate::expand::one;
use crate::flag::TorFlag;
use crate::text::texts;
use vstd::prelude::*;

verus! {

/// What can go wrong around a daemon.
#[derive(Debug, Clone)]
pub enum Error {
    /// The daemon is not running.
    NotRunning,
}

impl Error {
    /// The message of this error.
    pub open spec fn message_text(&self) -> Seq<char> {
        match self {
            Error::NotRunning => "Tor service is not running"@,
        }
    }

    /// Writes the message of this error.
    pub fn message(&self) -> (out: String)
        ensures
            out@ == self.message_text(),
    {
        match self {
            Error::NotRunning => String::from_str("Tor service is not running"),
        }
    }
}

/// The number of items in the first `k` lists of `lists`.
pub open spec fn items_before<A>(lists: Seq<Seq<A>>, k: int) -> int
    decreases k,
{
    if k <= 0 {
        0
    } else {
        items_before(lists, k - 1) + lists[k - 1].len()
    }
}

/// The first `k` lists, flattened, hold as many items as those lists hold
/// together. With `k` the number of lists: a flattened list is as long as
/// the sum of the lengths of its parts.
pub proof fn flatten_adds_lengths<A>(lists: Seq<Seq<A>>, k: int)
    requires
        0 <= k <= lists.len(),
    ensures
        lists.take(k).flatten().len() == items_before(lists, k),
    decreases k,
{
    if k > 0 {
        flatten_adds_lengths(lists, k - 1);
        assert(lists.take(k) =~= lists.take(k - 1).push(lists[k - 1]));
        lists.take(k - 1).lemma_flatten_push(lists[k - 1]);
    }
}

proof fn lemma_flatten_keeps_items<A>(lists: Seq<Seq<A>>, k: int, j: int, m: int)
    requires
        0 <= k < m <= lists.len(),
        0 <= j < lists[k].len(),
    ensures
        items_before(lists, k) + j < lists.take(m).flatten().len(),
        lists.take(m).flatten()[items_before(lists, k) + j] == lists[k][j],
    decreases m,
{
    let front = lists.take(m - 1).flatten();
    let at = items_before(lists, k) + j;
    flatten_adds_lengths(lists, k);
    assert(lists.take(m) =~= lists.take(m - 1).push(lists[m - 1]));
    lists.take(m - 1).lemma_flatten_push(lists[m - 1]);
    assert(lists.take(m).flatten() == front + lists[m - 1]);
    if m == k + 1 {
        assert((front + lists[k])[at] == lists[k][j]);
    } else {
        lemma_flatten_keeps_items(lists, k, j, m - 1);
        assert((front + lists[m - 1])[at] == front[at]);
    }
}

/// Flattening keeps every item, in its list's order and in the order of the
/// lists: item `j` of list `k` stands behind all the items of the lists
/// before `k`, at place `j` among those of its own list.
pub proof fn flatten_keeps_order<A>(lists: Seq<Seq<A>>, k: int, j: int)
    requires
        0 <= k < lists.len(),
        0 <= j < lists[k].len(),
    ensures
        0 <= items_before(lists, k) + j < lists.flatten().len(),
        lists.flatten()[items_before(lists, k) + j] == lists[k][j],
{
    flatten_adds_lengths(lists, k);
    lemma_flatten_keeps_items(lists, k, j, lists.len() as int);
    assert(lists.take(lists.len() as int) =~= lists);
}

/// A configuration of the daemon: the directives given so far, in the order
/// in which they were given.
#[derive(Debug, Clone)]
pub struct Tor {
    flags: Vec<TorFlag>,
}

impl View for Tor {
    type V = Seq<TorFlag>;

    closed spec fn view(&self) -> Seq<TorFlag> {
        self.flags@
    }
}

impl Default for Tor {
    fn default() -> (tor: Tor)
        ensures
            tor@ == Seq::<TorFlag>::empty(),
    {
        Tor { flags: Vec::new() }
    }
}

impl Tor {
    /// A configuration with no directive.
    pub fn new() -> (tor: Tor)
        ensures
            tor@ == Seq::<TorFlag>::empty(),
    {
        Tor { flags: Vec::new() }
    }

    /// Adds `flag` behind the directives given so far.
    pub fn flag(&mut self, flag: TorFlag) -> (tor: &mut Tor)
        ensures
            tor@ == old(self)@.push(flag),
            *final(self) == *final(tor),
    {
        self.flags.push(flag);
        self
    }

    /// The directives given so far, in their order.
    pub fn flags(&self) -> (flags: &Vec<TorFlag>)
        ensures
            flags@ == self@,
    {
        &self.flags
    }

    /// The token list of each directive, in the order of the directives.
    pub open spec fn token_lists(&self) -> Seq<Seq<Seq<char>>> {
        Seq::new(self@.len(), |i: int| self@[i].tokens())
    }

    /// The argument vector: the program's name `tor`, then the tokens of
    /// every directive.
    pub open spec fn argv(&self) -> Seq<Seq<char>> {
        seq!["tor"@] + self.token_lists().flatten()
    }

    /// Builds the argument vector that starts the daemon with this
    /// configuration: `tor`, then every token of every directive, each as
    /// an argument of its own, unquoted.
    pub fn arguments(&self) -> (argv: Vec<String>)
        ensures
            texts(argv@) == self.argv(),
    {
        let mut argv = one(String::from_str("tor"));
        let mut i: usize = 0;
        assert(self.token_lists().take(0).flatten() =~= Seq::<Seq<char>>::empty());
        while i < self.flags.len()
            invariant
                i <= self.flags.len(),
                self.flags@ == self@,
                texts(argv@) == seq!["tor"@] + self.token_lists().take(i as int).flatten(),
            decreases self.flags.len() - i,
        {
            let mut tokens = self.flags[i].expand();
            proof {
                let lists = self.token_lists();
                assert(lists.take(i + 1) =~= lists.take(i as int).push(lists[i as int]));
                lists.take(i as int).lemma_flatten_push(lists[i as int]);
                assert(texts(argv@ + tokens@) =~= texts(argv@) + texts(tokens@));
            }
            argv.append(&mut tokens);
            i = i + 1;
        }
        assert(self.token_lists().take(self.flags.len() as int) =~= self.token_lists());
        argv
    }

    /// Behind the program's name the argument vector holds as many
    /// arguments as the directives have tokens together.
    pub proof fn argv_has_every_token(&self)
        ensures
            self.argv().len() == 1 + items_before(self.token_lists(), self@.len() as int),
            self.argv()[0] == "tor"@,
    {
        let lists = self.token_lists();
        flatten_adds_lengths(lists, lists.len() as int);
        assert(lists.take(lists.len() as int) =~= lists);
    }

    /// The argument vector keeps the order of the directives and, within
    /// each directive, the order of its tokens: token `j` of directive `k`
    /// stands behind the program's name and all the tokens of the
    /// directives before `k`.
    pub proof fn argv_keeps_order(&self, k: int, j: int)
        requires
            0 <= k < self@.len(),
            0 <= j < self@[k].tokens().len(),
        ensures
            1 + items_before(self.token_lists(), k) + j < self.argv().len(),
            self.argv()[1 + items_before(self.token_lists(), k) + j] == self@[k].tokens()[j],
    {
        flatten_keeps_order(self.token_lists(), k, j);
    }
}

} // verus!
