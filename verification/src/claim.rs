//! What a caller presents, and what becomes of it.

use vstd::prelude::*;

verus! {

/// Values by name, as a list of bindings in the order they were made.
pub open spec fn bindings(list: Seq<(Seq<char>, Seq<char>)>) -> Map<Seq<char>, Seq<char>>
    decreases list.len(),
{
    if list.len() == 0 {
        Map::empty()
    } else {
        bindings(list.drop_last()).insert(list.last().0, list.last().1)
    }
}

/// Values by name. The last one bound to a name is the one it names.
struct Bindings {
    list: Vec<(String, String)>,
}

impl View for Bindings {
    type V = Map<Seq<char>, Seq<char>>;

    closed spec fn view(&self) -> Map<Seq<char>, Seq<char>> {
        bindings(self.texts())
    }
}

impl Bindings {
    closed spec fn texts(&self) -> Seq<(Seq<char>, Seq<char>)> {
        self.list@.map_values(|binding: (String, String)| (binding.0@, binding.1@))
    }

    fn new() -> (bindings: Self)
        ensures
            bindings@ == Map::<Seq<char>, Seq<char>>::empty(),
    {
        Bindings { list: Vec::new() }
    }

    fn bind(&mut self, name: &str, value: &str)
        ensures
            final(self)@ == old(self)@.insert(name@, value@),
    {
        self.list.push((name.to_owned(), value.to_owned()));
        proof {
            assert(self.texts() =~= old(self).texts().push((name@, value@)));
            assert(self.texts().drop_last() =~= old(self).texts());
        }
    }

    fn get(&self, name: &str) -> (value: Option<&str>)
        ensures
            match value {
                Some(value) => self@.dom().contains(name@) && self@[name@] == value@,
                None => !self@.dom().contains(name@),
            },
    {
        let name = name.to_owned();
        let mut value: Option<&str> = None;
        let mut i: usize = 0;
        let ghost texts = self.texts();
        assert(texts.take(0) =~= Seq::<(Seq<char>, Seq<char>)>::empty());
        while i < self.list.len()
            invariant
                i <= self.list@.len(),
                texts == self.texts(),
                match value {
                    Some(value) => bindings(texts.take(i as int)).dom().contains(name@)
                        && bindings(texts.take(i as int))[name@] == value@,
                    None => !bindings(texts.take(i as int)).dom().contains(name@),
                },
            decreases self.list@.len() - i,
        {
            let binding = &self.list[i];
            if binding.0 == name {
                value = Some(binding.1.as_str());
            }
            proof {
                assert(texts.take(i + 1).drop_last() =~= texts.take(i as int));
                assert(texts.take(i + 1).last() == (binding.0@, binding.1@));
            }
            i = i + 1;
        }
        assert(texts.take(i as int) =~= texts);
        value
    }
}

/// What a claim is, to a reader of the contracts.
pub struct ClaimView {
    pub mechanism: Seq<char>,
    pub value: Seq<char>,
    pub proofs: Map<Seq<char>, Seq<char>>,
    pub evidence: Map<Seq<char>, Seq<char>>,
}

impl ClaimView {
    /// The proof that was presented under `name`.
    pub open spec fn proof_under(self, name: Seq<char>) -> Option<Seq<char>> {
        if self.proofs.dom().contains(name) {
            Some(self.proofs[name])
        } else {
            None
        }
    }
}

/// A claim as it was presented: the mechanism it is made by, the name that is
/// claimed, the proofs that go with it, and the evidence that reaches the
/// record. The proofs are secrets, so a claim is not printed: it has no
/// `Debug`.
pub struct Presented {
    mechanism: String,
    value: String,
    proofs: Bindings,
    evidence: Bindings,
}

impl View for Presented {
    type V = ClaimView;

    closed spec fn view(&self) -> ClaimView {
        ClaimView {
            mechanism: self.mechanism@,
            value: self.value@,
            proofs: self.proofs@,
            evidence: self.evidence@,
        }
    }
}

impl Presented {
    /// A claim on `value` by `mechanism`, with nothing to go with it.
    #[must_use]
    pub fn passed(mechanism: &str, value: &str) -> (claim: Self)
        ensures
            claim@ == (ClaimView {
                mechanism: mechanism@,
                value: value@,
                proofs: Map::empty(),
                evidence: Map::empty(),
            }),
    {
        Presented {
            mechanism: mechanism.to_owned(),
            value: value.to_owned(),
            proofs: Bindings::new(),
            evidence: Bindings::new(),
        }
    }

    /// The claim with `secret` as its proof under `name`, in place of what was there.
    #[must_use]
    pub fn with_proof(self, name: &str, secret: &str) -> (claim: Self)
        ensures
            claim@ == (ClaimView {
                proofs: self@.proofs.insert(name@, secret@),
                ..self@
            }),
    {
        let mut proofs = self.proofs;
        proofs.bind(name, secret);
        Presented { mechanism: self.mechanism, value: self.value, proofs, evidence: self.evidence }
    }

    /// The claim with `value` as evidence under `name`, in place of what was
    /// there.
    #[must_use]
    pub fn with_evidence(self, name: &str, value: &str) -> (claim: Self)
        ensures
            claim@ == (ClaimView { evidence: self@.evidence.insert(name@, value@), ..self@ }),
    {
        let mut evidence = self.evidence;
        evidence.bind(name, value);
        Presented { mechanism: self.mechanism, value: self.value, proofs: self.proofs, evidence }
    }

    /// The name of the mechanism the claim is made by.
    #[must_use]
    pub fn mechanism(&self) -> (mechanism: &str)
        ensures
            mechanism@ == self@.mechanism,
    {
        self.mechanism.as_str()
    }

    /// The name that is claimed.
    #[must_use]
    pub fn value(&self) -> (value: &str)
        ensures
            value@ == self@.value,
    {
        self.value.as_str()
    }

    /// The proof presented under `name`.
    #[must_use]
    pub fn proof_named(&self, name: &str) -> (found: Option<&str>)
        ensures
            match found {
                Some(text) => self@.proofs.dom().contains(name@) && self@.proofs[name@] == text@,
                None => !self@.proofs.dom().contains(name@),
            },
    {
        self.proofs.get(name)
    }

    /// The evidence presented under `name`.
    #[must_use]
    pub fn evidence_named(&self, name: &str) -> (found: Option<&str>)
        ensures
            match found {
                Some(text) => self@.evidence.dom().contains(name@) && self@.evidence[name@] == text@,
                None => !self@.evidence.dom().contains(name@),
            },
    {
        self.evidence.get(name)
    }
}

/// What verification comes to, where it comes to anything.
#[derive(Clone, Copy, Debug, Eq, PartialEq, Structural)]
pub enum Verified {
    /// The claim is proven.
    Proven,
    /// The claim is not proven, and nothing more is said.
    Refused,
}

/// Why a claim could not be verified.
#[derive(Debug, Eq, PartialEq)]
pub struct AuthenticateError {
    pub message: String,
}

impl AuthenticateError {
    /// A failure that says `message`.
    #[must_use]
    pub fn new(message: String) -> (failure: Self)
        ensures
            failure.message@ == message@,
    {
        AuthenticateError { message }
    }
}

/// What a verification answered, with a failure by what it says.
pub open spec fn answer(result: Result<Verified, AuthenticateError>) -> Result<Verified, Seq<char>> {
    match result {
        Ok(verified) => Ok(verified),
        Err(failure) => Err(failure.message@),
    }
}

} // verus!
