use vstd::prelude::*;

use crate::error::ProxyError;

verus! {

/// One downstream backend: its address and a cumulative counter of how many
/// times it has been selected. The counter is never decremented; routing is
/// therefore "least historically used".
pub struct Backend {
    pub address: String,
    pub load: u64,
}

/// The service classes the registry can host. Only image generation exists
/// today; the registry is written against this enum so further classes slot
/// in without structural change.
#[derive(Clone, Copy, PartialEq, Eq, Structural)]
pub enum ServiceClass {
    Image,
}

/// An ordered collection of backends per service class. Addresses may repeat:
/// no deduplication is enforced on registration.
pub struct Registry {
    pub image: Vec<Backend>,
}

/// The backends a class holds after appending a freshly registered address.
pub open spec fn spec_register(s: Seq<Backend>, address: String) -> Seq<Backend> {
    s.push(Backend { address, load: 0u64 })
}

/// The addresses of a backend collection, in order.
pub open spec fn listing(s: Seq<Backend>) -> Seq<Seq<char>> {
    s.map(|i: int, b: Backend| b.address@)
}

/// `s` with every backend whose address equals `a` removed, order preserved.
pub open spec fn without_address(s: Seq<Backend>, a: Seq<char>) -> Seq<Backend>
    decreases s.len(),
{
    if s.len() == 0 {
        Seq::<Backend>::empty()
    } else {
        let rest = without_address(s.drop_last(), a);
        if s.last().address@ == a {
            rest
        } else {
            rest.push(s.last())
        }
    }
}

/// How many backends in `s` carry the address `a`.
pub open spec fn count_address(s: Seq<Backend>, a: Seq<char>) -> nat
    decreases s.len(),
{
    if s.len() == 0 {
        0nat
    } else {
        count_address(s.drop_last(), a) + if s.last().address@ == a {
            1nat
        } else {
            0nat
        }
    }
}

/// Whether some backend in `s` carries the address `a`.
pub open spec fn has_address(s: Seq<Backend>, a: Seq<char>) -> bool {
    exists|i: int| 0 <= i < s.len() && s[i].address@ == a
}

/// The index of the least-loaded backend, ties broken in favour of the
/// earliest-added backend.
pub open spec fn min_load_index(s: Seq<Backend>) -> int
    decreases s.len(),
{
    if s.len() <= 1 {
        0
    } else {
        let j = min_load_index(s.drop_last());
        if s[j].load <= s.last().load {
            j
        } else {
            s.len() - 1
        }
    }
}

/// A backend after one more selection. The counter sticks at the top of its
/// range rather than wrap, so it stays monotone.
pub open spec fn bumped(b: Backend) -> Backend {
    Backend { address: b.address, load: if b.load == u64::MAX { b.load } else { (b.load + 1) as u64 } }
}

/// Law: the least-loaded index points at a backend whose load no other backend
/// undercuts, and every backend before it is strictly more loaded, so ties go
/// to the earliest-added backend.
pub proof fn lemma_min_load_index_is_least(s: Seq<Backend>)
    requires
        s.len() > 0,
    ensures
        0 <= min_load_index(s) < s.len(),
        forall|j: int| 0 <= j < s.len() ==> s[min_load_index(s)].load <= #[trigger] s[j].load,
        forall|j: int| 0 <= j < min_load_index(s) ==> #[trigger] s[j].load > s[min_load_index(s)].load,
    decreases s.len(),
{
    if s.len() > 1 {
        lemma_min_load_index_is_least(s.drop_last());
        assert(forall|j: int| 0 <= j < s.len() - 1 ==> s.drop_last()[j] == s[j]);
    }
}

/// Law: removal by address removes every occurrence of that address and keeps
/// everything else, in order; when the address is absent it removes nothing.
pub proof fn lemma_without_address_removes_all(s: Seq<Backend>, a: Seq<char>)
    ensures
        forall|i: int|
            0 <= i < without_address(s, a).len() ==> without_address(s, a)[i].address@ != a,
        without_address(s, a).len() + count_address(s, a) == s.len(),
        !has_address(s, a) ==> without_address(s, a) =~= s,
        has_address(s, a) ==> count_address(s, a) >= 1,
    decreases s.len(),
{
    if s.len() == 0 {
        assert(!has_address(s, a));
    } else {
        lemma_without_address_removes_all(s.drop_last(), a);
        if has_address(s, a) && s.last().address@ != a {
            let i = choose|i: int| 0 <= i < s.len() && s[i].address@ == a;
            assert(s.drop_last()[i] == s[i]);
            assert(has_address(s.drop_last(), a));
        }
        if !has_address(s, a) {
            assert(forall|i: int| 0 <= i < s.len() - 1 ==> s.drop_last()[i] == s[i]);
            assert(!has_address(s.drop_last(), a));
        }
    }
}

/// Law: registering appends the new address at the end of the listing and
/// preserves the prior order.
pub proof fn lemma_register_appends_to_listing(s: Seq<Backend>, address: String)
    ensures
        listing(spec_register(s, address)) =~= listing(s).push(address@),
{
}

impl Registry {
    /// The backends currently registered for a class, in registration order.
    pub open spec fn backends(&self, class: ServiceClass) -> Seq<Backend> {
        match class {
            ServiceClass::Image => self.image@,
        }
    }

    /// A registry with no backend in any class.
    pub fn new() -> (r: Registry)
        ensures
            forall|c: ServiceClass| #[trigger] r.backends(c) =~= Seq::<Backend>::empty(),
    {
        Registry { image: Vec::new() }
    }

    /// Appends a descriptor with load 0 for `address`. Always succeeds; no
    /// deduplication is attempted.
    pub fn register(&mut self, class: ServiceClass, address: String)
        ensures
            final(self).backends(class) =~= spec_register(old(self).backends(class), address),
    {
        match class {
            ServiceClass::Image => self.image.push(Backend { address, load: 0 }),
        }
    }

    /// Removes every backend of `class` whose address equals `address`.
    /// Fails, and leaves the registry unchanged, when none matches.
    pub fn unregister(&mut self, class: ServiceClass, address: &String) -> (r: Result<
        (),
        ProxyError,
    >)
        ensures
            has_address(old(self).backends(class), address@) ==> r is Ok && final(self).backends(class)
                =~= without_address(old(self).backends(class), address@),
            !has_address(old(self).backends(class), address@) ==> (r matches Err(e) && e
                is NotFound && e.spec_message()
                == "not found the downstream server to unregister"@) && final(self).backends(class)
                =~= old(self).backends(class),
    {
        let n: usize = match class {
            ServiceClass::Image => self.image.len(),
        };
        let mut kept: Vec<Backend> = Vec::new();
        let mut i: usize = 0;
        while i < n
            invariant
                n == old(self).backends(class).len(),
                *self == *old(self),
                0 <= i <= n,
                kept@ =~= without_address(old(self).backends(class).subrange(0, i as int), address@),
            decreases n - i,
        {
            let ghost pre = old(self).backends(class).subrange(0, i as int);
            let b = match class {
                ServiceClass::Image => &self.image[i],
            };
            if !crate::bytes::string_eq(&b.address, address) {
                kept.push(Backend { address: b.address.clone(), load: b.load });
            }
            i += 1;
            proof {
                let cur = old(self).backends(class).subrange(0, i as int);
                assert(cur.drop_last() =~= pre);
                assert(cur.last() == old(self).backends(class)[i - 1]);
            }
        }
        proof {
            assert(old(self).backends(class).subrange(0, n as int) =~= old(self).backends(class));
            lemma_without_address_removes_all(old(self).backends(class), address@);
        }
        if kept.len() == n {
            proof {
                if has_address(old(self).backends(class), address@) {
                    assert(count_address(old(self).backends(class), address@) >= 1);
                }
            }
            return Err(
                ProxyError::NotFound(
                    String::from_str("not found the downstream server to unregister"),
                ),
            );
        }
        match class {
            ServiceClass::Image => self.image = kept,
        }
        Ok(())
    }

    /// The ordered sequence of registered addresses for a class.
    pub fn list(&self, class: ServiceClass) -> (r: Vec<String>)
        ensures
            r@.len() == self.backends(class).len(),
            forall|i: int| 0 <= i < r@.len() ==> r@[i]@ == listing(self.backends(class))[i],
    {
        let n: usize = match class {
            ServiceClass::Image => self.image.len(),
        };
        let mut out: Vec<String> = Vec::new();
        let mut i: usize = 0;
        while i < n
            invariant
                n == self.backends(class).len(),
                0 <= i <= n,
                out@.len() == i,
                forall|j: int| 0 <= j < i ==> out@[j]@ == self.backends(class)[j].address@,
            decreases n - i,
        {
            let b = match class {
                ServiceClass::Image => &self.image[i],
            };
            out.push(b.address.clone());
            i += 1;
        }
        out
    }

    /// Least-loaded selection. On a non-empty class it returns the address of
    /// the backend with minimum load (ties to the earliest-added) and
    /// increments that backend's counter; on an empty class it fails and
    /// changes nothing.
    pub fn select(&mut self, class: ServiceClass) -> (r: Result<String, ProxyError>)
        ensures
            old(self).backends(class).len() == 0 ==> (r matches Err(e) && e is NotFound
                && e.spec_message() == "not found any downstream server"@) && final(self).backends(
                class,
            ) =~= old(self).backends(class),
            old(self).backends(class).len() > 0 ==> {
                let s = old(self).backends(class);
                let w = min_load_index(s);
                (r matches Ok(a) && a@ == s[w].address@) && final(self).backends(class) =~= s.update(
                    w,
                    bumped(s[w]),
                )
            },
    {
        let n: usize = match class {
            ServiceClass::Image => self.image.len(),
        };
        if n == 0 {
            return Err(ProxyError::NotFound(String::from_str("not found any downstream server")));
        }
        proof {
            lemma_min_load_index_is_least(old(self).backends(class));
        }
        let mut best: usize = 0;
        let mut i: usize = 1;
        while i < n
            invariant
                n == old(self).backends(class).len(),
                *self == *old(self),
                0 < n,
                0 <= best < i <= n,
                best as int == min_load_index(old(self).backends(class).subrange(0, i as int)),
            decreases n - i,
        {
            let ghost pre = old(self).backends(class).subrange(0, i as int);
            let better = match class {
                ServiceClass::Image => self.image[i].load < self.image[best].load,
            };
            proof {
                let cur = old(self).backends(class).subrange(0, i as int + 1);
                assert(cur.drop_last() =~= pre);
                assert(cur.last() == old(self).backends(class)[i as int]);
                assert(forall|j: int| 0 <= j < i ==> pre[j] == old(self).backends(class)[j]);
            }
            if better {
                best = i;
            }
            i += 1;
        }
        proof {
            assert(old(self).backends(class).subrange(0, n as int) =~= old(self).backends(class));
        }
        let (address, load) = match class {
            ServiceClass::Image => (
                self.image[best].address.clone(),
                self.image[best].load,
            ),
        };
        let new_load: u64 = if load == u64::MAX {
            load
        } else {
            load + 1
        };
        match class {
            ServiceClass::Image => {
                let removed = self.image.remove(best);
                self.image.insert(best, Backend { address: removed.address, load: new_load });
            },
        }
        proof {
            assert(self.backends(class) =~= old(self).backends(class).update(
                best as int,
                bumped(old(self).backends(class)[best as int]),
            ));
        }
        Ok(address)
    }
}

} // verus!
