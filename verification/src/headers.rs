//! The request/response model the gateway decides over: an ordered list of
//! header name/value pairs (names lowercase, values raw bytes) and a response
//! with a status code. Bodies never matter to the decision engine and are not
//! modelled.

use vstd::prelude::*;
use vstd::utf8::encode_utf8;

use crate::text::{bytes_eq, starts_with};

verus! {

/// The `Cookie` request header name.
pub open spec fn h_cookie() -> Seq<u8> {
    encode_utf8("cookie"@)
}

/// The `Authorization` request header name.
pub open spec fn h_authorization() -> Seq<u8> {
    encode_utf8("authorization"@)
}

/// The `Host` request header name.
pub open spec fn h_host() -> Seq<u8> {
    encode_utf8("host"@)
}

/// The `Set-Cookie` response header name.
pub open spec fn h_set_cookie() -> Seq<u8> {
    encode_utf8("set-cookie"@)
}

/// The `WWW-Authenticate` response header name.
pub open spec fn h_www_authenticate() -> Seq<u8> {
    encode_utf8("www-authenticate"@)
}

/// The challenge sent with every 401 response.
pub open spec fn basic_realm() -> Seq<u8> {
    encode_utf8("Basic realm=\"Restricted\""@)
}

/// The value of the first header named `name`, if any.
pub open spec fn first_value(hs: Seq<(Seq<u8>, Seq<u8>)>, name: Seq<u8>) -> Option<Seq<u8>>
    decreases hs.len(),
{
    if hs.len() == 0 {
        None
    } else if hs[0].0 == name {
        Some(hs[0].1)
    } else {
        first_value(hs.drop_first(), name)
    }
}

/// The headers with every entry named `name` removed.
pub open spec fn without_name(hs: Seq<(Seq<u8>, Seq<u8>)>, name: Seq<u8>) -> Seq<
    (Seq<u8>, Seq<u8>),
>
    decreases hs.len(),
{
    if hs.len() == 0 {
        Seq::empty()
    } else if hs[0].0 == name {
        without_name(hs.drop_first(), name)
    } else {
        seq![hs[0]] + without_name(hs.drop_first(), name)
    }
}

/// Index of the first header named `name`, or `hs.len()` when there is none.
pub open spec fn first_index(hs: Seq<(Seq<u8>, Seq<u8>)>, name: Seq<u8>) -> int
    decreases hs.len(),
{
    if hs.len() == 0 {
        0
    } else if hs[0].0 == name {
        0
    } else {
        1 + first_index(hs.drop_first(), name)
    }
}

/// An ordered list of header name/value pairs; a name may repeat.
pub struct Headers {
    entries: Vec<(Vec<u8>, Vec<u8>)>,
}

impl View for Headers {
    type V = Seq<(Seq<u8>, Seq<u8>)>;

    closed spec fn view(&self) -> Seq<(Seq<u8>, Seq<u8>)> {
        Seq::new(self.entries@.len(), |i: int| (self.entries@[i].0@, self.entries@[i].1@))
    }
}

impl Headers {
    pub fn new() -> (r: Headers)
        ensures
            r@ == Seq::<(Seq<u8>, Seq<u8>)>::empty(),
    {
        let r = Headers { entries: Vec::new() };
        proof {
            assert(r@ =~= Seq::<(Seq<u8>, Seq<u8>)>::empty());
        }
        r
    }

    /// The value of the first header named `name`; later duplicates are
    /// ignored.
    pub fn get(&self, name: &[u8]) -> (r: Option<&Vec<u8>>)
        ensures
            match r {
                Some(v) => first_value(self@, name@) == Some(v@),
                None => first_value(self@, name@) is None,
            },
    {
        let mut i: usize = 0;
        proof {
            assert(self@.skip(0) =~= self@);
        }
        while i < self.entries.len()
            invariant
                0 <= i <= self.entries@.len(),
                self@.len() == self.entries@.len(),
                first_value(self@, name@) == first_value(self@.skip(i as int), name@),
            decreases self.entries@.len() - i,
        {
            proof {
                assert(self@.skip(i as int)[0] == self@[i as int]);
            }
            if bytes_eq(self.entries[i].0.as_slice(), name) {
                return Some(&self.entries[i].1);
            }
            proof {
                assert(self@.skip(i as int).drop_first() =~= self@.skip(i as int + 1));
            }
            i = i + 1;
        }
        proof {
            assert(self@.skip(i as int) =~= Seq::<(Seq<u8>, Seq<u8>)>::empty());
        }
        None
    }

    pub fn len(&self) -> (n: usize)
        ensures
            n == self@.len(),
    {
        self.entries.len()
    }

    pub fn name_at(&self, i: usize) -> (r: &Vec<u8>)
        requires
            i < self@.len(),
        ensures
            r@ == self@[i as int].0,
    {
        &self.entries[i].0
    }

    pub fn value_at(&self, i: usize) -> (r: &Vec<u8>)
        requires
            i < self@.len(),
        ensures
            r@ == self@[i as int].1,
    {
        &self.entries[i].1
    }

    /// Add a header at the end, keeping any existing entries of the same name.
    pub fn append(&mut self, name: Vec<u8>, value: Vec<u8>)
        ensures
            final(self)@ == old(self)@.push((name@, value@)),
    {
        let ghost n = name@;
        let ghost v = value@;
        self.entries.push((name, value));
        proof {
            assert(final(self)@ =~= old(self)@.push((n, v)));
        }
    }

    /// Remove every header named `name`.
    pub fn remove_all(&mut self, name: &[u8])
        ensures
            final(self)@ == without_name(old(self)@, name@),
    {
        let mut i: usize = 0;
        proof {
            assert(self@.skip(0) =~= self@);
            assert(self@.take(0) =~= Seq::<(Seq<u8>, Seq<u8>)>::empty());
        }
        while i < self.entries.len()
            invariant
                0 <= i <= self.entries@.len(),
                self@.len() == self.entries@.len(),
                without_name(old(self)@, name@) == self@.take(i as int) + without_name(
                    self@.skip(i as int),
                    name@,
                ),
                forall|k: int| 0 <= k < i ==> self@[k].0 != name@,
            decreases self.entries@.len() - i,
        {
            let ghost pre = self@;
            proof {
                assert(pre.skip(i as int)[0] == pre[i as int]);
            }
            if bytes_eq(self.entries[i].0.as_slice(), name) {
                self.entries.remove(i);
                proof {
                    assert(self@ =~= pre.remove(i as int));
                    assert(self@.take(i as int) =~= pre.take(i as int));
                    assert(self@.skip(i as int) =~= pre.skip(i as int).drop_first());
                }
            } else {
                proof {
                    assert(pre.take(i as int).push(pre[i as int]) =~= pre.take(i as int + 1));
                    assert(pre.skip(i as int).drop_first() =~= pre.skip(i as int + 1));
                    assert(pre.take(i as int) + (seq![pre[i as int]] + without_name(
                        pre.skip(i as int + 1),
                        name@,
                    )) =~= pre.take(i as int + 1) + without_name(pre.skip(i as int + 1), name@));
                }
                i = i + 1;
            }
        }
        proof {
            assert(self@.skip(i as int) =~= Seq::<(Seq<u8>, Seq<u8>)>::empty());
            assert(self@.take(i as int) =~= self@);
            assert(self@.take(i as int) + without_name(self@.skip(i as int), name@) =~= self@);
        }
    }

    /// Replace every header named `name` by the single given one.
    pub fn insert(&mut self, name: Vec<u8>, value: Vec<u8>)
        ensures
            final(self)@ == without_name(old(self)@, name@).push((name@, value@)),
    {
        self.remove_all(name.as_slice());
        self.append(name, value);
    }

    /// Rewrite the value of the first header named `name`, when one exists;
    /// otherwise leave the headers alone.
    pub fn replace_first(&mut self, name: &[u8], value: Vec<u8>)
        ensures
            final(self)@ == if first_index(old(self)@, name@) < old(self)@.len() {
                old(self)@.update(
                    first_index(old(self)@, name@),
                    (old(self)@[first_index(old(self)@, name@)].0, value@),
                )
            } else {
                old(self)@
            },
    {
        let mut i: usize = 0;
        proof {
            assert(old(self)@.skip(0) =~= old(self)@);
        }
        while i < self.entries.len()
            invariant
                0 <= i <= self.entries@.len(),
                self@.len() == self.entries@.len(),
                self@ == old(self)@,
                first_index(old(self)@, name@) == i + first_index(
                    old(self)@.skip(i as int),
                    name@,
                ),
                forall|k: int| 0 <= k < i ==> old(self)@[k].0 != name@,
            decreases self.entries@.len() - i,
        {
            proof {
                assert(old(self)@.skip(i as int)[0] == old(self)@[i as int]);
            }
            if bytes_eq(self.entries[i].0.as_slice(), name) {
                proof {
                    assert(first_index(old(self)@.skip(i as int), name@) == 0);
                    assert(first_index(old(self)@, name@) == i as int);
                }
                let ghost v = value@;
                let mut e = self.entries.remove(i);
                e.1 = value;
                let ghost name_kept = e.0@;
                self.entries.insert(i, e);
                proof {
                    assert(name_kept == old(self)@[i as int].0);
                    assert(self@ =~~= old(self)@.update(i as int, (name_kept, v)));
                }
                return ;
            }
            proof {
                assert(old(self)@.skip(i as int).drop_first() =~= old(self)@.skip(i as int + 1));
            }
            i = i + 1;
        }
        proof {
            assert(old(self)@.skip(i as int) =~= Seq::<(Seq<u8>, Seq<u8>)>::empty());
            assert(first_index(old(self)@, name@) == old(self)@.len());
        }
    }
}

/// A response as the gateway shapes it: a status code and headers. The
/// gateway's own responses have empty bodies; a forwarded response keeps the
/// backend's body, which this model never inspects.
pub struct Response {
    pub status: u16,
    pub headers: Headers,
}

/// The headers with the `Authorization` entry removed when its value uses the
/// Basic scheme — raw credentials are never forwarded to a backend.
pub open spec fn strip_basic_authorization(hs: Seq<(Seq<u8>, Seq<u8>)>) -> Seq<(Seq<u8>, Seq<u8>)> {
    match first_value(hs, h_authorization()) {
        Some(v) => if starts_with(v, crate::auth::basic_prefix()) {
            without_name(hs, h_authorization())
        } else {
            hs
        },
        None => hs,
    }
}

/// The headers with the first `Host` value rewritten to the backend host. A
/// request that carried no `Host` header is forwarded without one: there is
/// then no inbound host to hide from the backend, and nothing is added.
pub open spec fn rewrite_host(hs: Seq<(Seq<u8>, Seq<u8>)>, host: Seq<u8>) -> Seq<
    (Seq<u8>, Seq<u8>),
> {
    if first_index(hs, h_host()) < hs.len() {
        hs.update(first_index(hs, h_host()), (hs[first_index(hs, h_host())].0, host))
    } else {
        hs
    }
}

} // verus!
