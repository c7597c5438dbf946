use vstd::prelude::*;
use crate::text::{NameError, same_text};

verus! {

/// The name without one trailing `.yaml`, if it ends so.
pub open spec fn strip_yaml(s: Seq<char>) -> Seq<char> {
    if s.len() >= 5 && s.subrange(s.len() - 5, s.len() as int) == ".yaml"@ {
        s.subrange(0, s.len() - 5)
    } else {
        s
    }
}

/// The tokens of `s` between dashes, empty ones kept; there is always one.
pub open spec fn split_tokens(s: Seq<char>) -> Seq<Seq<char>>
    decreases s.len(),
{
    if s.len() == 0 {
        seq![Seq::<char>::empty()]
    } else {
        let prev = split_tokens(s.drop_last());
        if s.last() == '-' {
            prev.push(Seq::<char>::empty())
        } else {
            prev.update(prev.len() - 1, prev.last().push(s.last()))
        }
    }
}

/// Tokens joined again with dashes.
pub open spec fn join_tokens(ts: Seq<Seq<char>>) -> Seq<char>
    decreases ts.len(),
{
    if ts.len() == 0 {
        Seq::<char>::empty()
    } else if ts.len() == 1 {
        ts[0]
    } else {
        join_tokens(ts.drop_last()) + seq!['-'] + ts.last()
    }
}

/// The fields of a node name, as text.
pub struct NameParts {
    pub role: Seq<char>,
    pub chain: Option<Seq<char>>,
    pub network: Seq<char>,
    pub instance: Seq<char>,
}

/// How a name is split into fields: the first token is the role, the last the
/// instance, the one before it the network; any tokens between role and
/// network, joined again, name the chain.
pub open spec fn parse_spec(s: Seq<char>) -> Result<NameParts, NameError> {
    let ts = split_tokens(strip_yaml(s));
    if ts.len() < 3 {
        Err(NameError::InvalidFormat)
    } else {
        Ok(
            NameParts {
                role: ts[0],
                chain: if ts.len() > 3 {
                    Some(join_tokens(ts.subrange(1, ts.len() - 2)))
                } else {
                    None
                },
                network: ts[ts.len() - 2],
                instance: ts.last(),
            },
        )
    }
}

/// A node name split into its fields.
pub struct NodeName {
    pub role: String,
    pub chain: Option<String>,
    pub network: String,
    pub instance: String,
}

impl View for NodeName {
    type V = NameParts;

    open spec fn view(&self) -> NameParts {
        NameParts {
            role: self.role@,
            chain: match self.chain {
                Some(c) => Some(c@),
                None => None,
            },
            network: self.network@,
            instance: self.instance@,
        }
    }
}

fn split_dashes(body: &str) -> (r: Vec<String>)
    ensures
        r@.len() == split_tokens(body@).len(),
        forall|j: int| 0 <= j < r@.len() ==> #[trigger] r@[j]@ == split_tokens(body@)[j],
{
    let m = body.unicode_len();
    let mut tokens: Vec<String> = Vec::new();
    let mut start: usize = 0;
    let mut i: usize = 0;
    while i < m
        invariant
            m == body@.len(),
            start <= i <= m,
            tokens@.len() + 1 == split_tokens(body@.take(i as int)).len(),
            forall|j: int|
                0 <= j < tokens@.len() ==> #[trigger] tokens@[j]@ == split_tokens(
                    body@.take(i as int),
                )[j],
            split_tokens(body@.take(i as int)).last() == body@.subrange(start as int, i as int),
        decreases m - i,
    {
        let ghost prev = split_tokens(body@.take(i as int));
        proof {
            assert(body@.take(i + 1).drop_last() =~= body@.take(i as int));
            assert(body@.take(i + 1).last() == body@[i as int]);
        }
        if body.get_char(i) == '-' {
            let piece = body.substring_char(start, i);
            tokens.push(String::from_str(piece));
            start = i + 1;
            proof {
                assert(body@.subrange(start as int, i + 1) =~= Seq::<char>::empty());
            }
        } else {
            proof {
                assert(body@.subrange(start as int, i + 1) =~= body@.subrange(
                    start as int,
                    i as int,
                ).push(body@[i as int]));
            }
        }
        i += 1;
    }
    let last = body.substring_char(start, m);
    tokens.push(String::from_str(last));
    proof {
        assert(body@.take(m as int) =~= body@);
    }
    tokens
}

impl NodeName {
    /// Splits a node name into role, optional chain, network and instance.
    pub fn parse(s: &str) -> (r: Result<NodeName, NameError>)
        ensures
            match r {
                Ok(n) => parse_spec(s@) == Ok::<NameParts, NameError>(n@),
                Err(e) => parse_spec(s@) == Err::<NameParts, NameError>(e),
            },
    {
        let n = s.unicode_len();
        let mut body = s;
        if n >= 5 {
            let tail = s.substring_char(n - 5, n);
            if same_text(tail, ".yaml") {
                body = s.substring_char(0, n - 5);
            }
        }
        assert(body@ == strip_yaml(s@));
        let tokens = split_dashes(body);
        let ghost ts = split_tokens(body@);
        let k = tokens.len();
        if k < 3 {
            return Err(NameError::InvalidFormat);
        }
        let role = tokens[0].clone();
        let network = tokens[k - 2].clone();
        let instance = tokens[k - 1].clone();
        let chain = if k > 3 {
            let mut acc = tokens[1].clone();
            let mut j: usize = 2;
            while j < k - 2
                invariant
                    2 <= j <= k - 2,
                    k == tokens@.len(),
                    k == ts.len(),
                    forall|q: int| 0 <= q < tokens@.len() ==> #[trigger] tokens@[q]@ == ts[q],
                    acc@ == join_tokens(ts.subrange(1, j as int)),
                decreases k - 2 - j,
            {
                proof {
                    reveal_strlit("-");
                    assert(ts.subrange(1, j + 1).drop_last() =~= ts.subrange(1, j as int));
                }
                acc.append("-");
                acc.append(tokens[j].as_str());
                proof {
                    assert(acc@ =~= join_tokens(ts.subrange(1, j as int)) + seq!['-'] + ts[j as int]);
                }
                j += 1;
            }
            Some(acc)
        } else {
            None
        };
        let r = NodeName { role, chain, network, instance };
        proof {
            assert(tokens@[0]@ == ts[0]);
            assert(tokens@[k - 2]@ == ts[k - 2]);
            assert(tokens@[k - 1]@ == ts[k - 1]);
            if k > 3 {
                assert(tokens@[1]@ == ts[1]);
            }
            assert(r@ == parse_spec(s@)->Ok_0);
        }
        Ok(r)
    }
}

} // verus!
