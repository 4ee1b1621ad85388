//! Depth-first traversal of a source tree, kept as an explicit stack so
//! that the depth of the tree does not matter.
use vstd::prelude::*;

use crate::config::{contains_name, Config, ConfigModel};
use crate::text::{join, join_path, views};

verus! {

/// Whether a directory entry named `name` is left alone: hidden names
/// (starting with `.`) and names on the skip list.
pub open spec fn is_skipped(c: ConfigModel, name: Seq<char>) -> bool {
    (name.len() > 0 && name[0] == '.') || c.skip.contains(name)
}

/// Whether the directory entry `name` is left alone.
pub fn skips_entry(config: &Config, name: &String) -> (r: bool)
    ensures
        r == is_skipped(config@, name@),
{
    let hidden = name.as_str().unicode_len() > 0 && name.as_str().get_char(0) == '.';
    hidden || contains_name(&config.folders_to_skip, name)
}

/// The entries of `names` that are descended into, in order.
pub open spec fn kept_names(c: ConfigModel, names: Seq<Seq<char>>) -> Seq<Seq<char>>
    decreases names.len(),
{
    if names.len() == 0 {
        Seq::empty()
    } else if is_skipped(c, names.last()) {
        kept_names(c, names.drop_last())
    } else {
        kept_names(c, names.drop_last()).push(names.last())
    }
}

/// The entries of `names` that are left alone, in order.
pub open spec fn skipped_names(c: ConfigModel, names: Seq<Seq<char>>) -> Seq<Seq<char>>
    decreases names.len(),
{
    if names.len() == 0 {
        Seq::empty()
    } else if is_skipped(c, names.last()) {
        skipped_names(c, names.drop_last()).push(names.last())
    } else {
        skipped_names(c, names.drop_last())
    }
}

/// The paths of the entries of directory `dir` that are descended into, in
/// the order of `names`.
pub open spec fn child_paths(c: ConfigModel, dir: Seq<char>, names: Seq<Seq<char>>) -> Seq<Seq<char>> {
    kept_names(c, names).map_values(|n: Seq<char>| join(dir, n))
}

/// The paths still to visit. The last one is visited next.
pub struct Walk {
    pub pending: Vec<String>,
}

impl View for Walk {
    type V = Seq<Seq<char>>;

    open spec fn view(&self) -> Seq<Seq<char>> {
        views(self.pending@)
    }
}

impl Walk {
    /// A walk that starts at `root`.
    pub fn new(root: String) -> (r: Walk)
        ensures
            r@ == seq![root@],
    {
        let mut pending: Vec<String> = Vec::new();
        pending.push(root);
        let r = Walk { pending };
        proof {
            assert(r@ =~= seq![root@]);
        }
        r
    }

    /// Whether every path has been visited.
    pub fn is_done(&self) -> (r: bool)
        ensures
            r == (self@.len() == 0),
    {
        self.pending.len() == 0
    }

    /// Takes the next path to visit, if any is left.
    pub fn next_path(&mut self) -> (r: Option<String>)
        ensures
            old(self)@.len() == 0 ==> r is None && final(self)@ == old(self)@,
            old(self)@.len() > 0 ==> r is Some && r->0@ == old(self)@.last()
                && final(self)@ == old(self)@.drop_last(),
    {
        let r = self.pending.pop();
        proof {
            if old(self)@.len() > 0 {
                assert(self@ =~= old(self)@.drop_last());
            } else {
                assert(self@ =~= old(self)@);
            }
        }
        r
    }

    /// Enters the directory `dir`, whose entries are `names` in listing
    /// order. The entries that are not skipped are put on the stack so that
    /// they are visited in that order, each before whatever was pending.
    /// Returns the names of the skipped entries, in order.
    pub fn enter_dir(&mut self, config: &Config, dir: &str, names: Vec<String>) -> (skipped: Vec<String>)
        ensures
            final(self)@ == old(self)@ + child_paths(config@, dir@, views(names@)).reverse(),
            views(skipped@) == skipped_names(config@, views(names@)),
    {
        let ghost c = config@;
        let ghost ns = views(names@);
        let mut children: Vec<String> = Vec::new();
        let mut skipped: Vec<String> = Vec::new();
        let mut i: usize = 0;
        proof {
            assert(ns.take(0) =~= Seq::<Seq<char>>::empty());
            assert(views(children@) =~= Seq::<Seq<char>>::empty());
            assert(views(skipped@) =~= Seq::<Seq<char>>::empty());
        }
        while i < names.len()
            invariant
                c == config@,
                ns == views(names@),
                i <= names@.len(),
                views(children@) == child_paths(c, dir@, ns.take(i as int)),
                views(skipped@) == skipped_names(c, ns.take(i as int)),
            decreases names.len() - i,
        {
            let name = &names[i];
            proof {
                assert(ns.take(i + 1).drop_last() =~= ns.take(i as int));
                assert(ns.take(i + 1).last() == name@);
            }
            let ghost before_children = children@;
            let ghost before_skipped = skipped@;
            if skips_entry(config, name) {
                skipped.push(name.clone());
                proof {
                    assert(views(skipped@) =~= views(before_skipped).push(name@));
                }
            } else {
                let path = join_path(dir, name.as_str());
                children.push(path);
                proof {
                    assert(views(children@) =~= views(before_children).push(join(dir@, name@)));
                    assert(child_paths(c, dir@, ns.take(i + 1)) =~= child_paths(c, dir@, ns.take(i as int)).push(
                        join(dir@, name@),
                    ));
                }
            }
            i = i + 1;
        }
        proof {
            assert(ns.take(names@.len() as int) =~= ns);
        }
        let ghost base = self@;
        let ghost cp = views(children@);
        let mut j: usize = children.len();
        while j > 0
            invariant
                j <= children@.len(),
                cp == views(children@),
                self@ == base + cp.subrange(j as int, cp.len() as int).reverse(),
            decreases j,
        {
            j = j - 1;
            let ghost prev = self@;
            self.pending.push(children[j].clone());
            proof {
                assert(self@ =~= prev.push(cp[j as int]));
                assert(base + cp.subrange(j as int, cp.len() as int).reverse() =~= prev.push(cp[j as int]));
            }
        }
        proof {
            assert(cp.subrange(0, cp.len() as int) =~= cp);
        }
        skipped
    }
}

} // verus!
