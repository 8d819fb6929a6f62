//! RSA public keys given by their components.

use vstd::prelude::*;

use crate::rsa::calls;
use crate::rsa::calls::{Call, CallText, DigestAlgorithm, Object, Reply, RsaPadding};
use crate::rsa::error::Unspecified;

verus! {

// ---------------------------------------------------------------------------
// Building a key
// ---------------------------------------------------------------------------

/// What the building of a key has come to.
#[derive(Clone, Copy, Debug, PartialEq, Eq, Structural)]
pub enum BuildStage {
    /// The number for the modulus is to be made.
    NewModulus,
    /// The number for the exponent is to be made.
    NewExponent { n: usize },
    /// An empty RSA key is to be made.
    NewRsa { n: usize, e: usize },
    /// The RSA key is to take over its numbers.
    SetKey { n: usize, e: usize, rsa: usize },
    /// The `EVP_PKEY` for the key is to be made.
    NewPkey { rsa: usize },
    /// The `EVP_PKEY` is to take over the RSA key.
    AssignRsa { rsa: usize, pkey: usize },
    /// The key is built.
    Built { pkey: usize },
    /// The building has failed.
    Failed,
}

/// The building of a key from its components.
#[derive(Clone, Copy, Debug)]
pub struct RsaBuild<'a> {
    n: &'a [u8],
    e: &'a [u8],
    stage: BuildStage,
}

/// The value of the building of a key.
#[verifier::ext_equal]
pub struct BuildView {
    /// The bytes of the modulus.
    pub n: Seq<u8>,
    /// The bytes of the exponent.
    pub e: Seq<u8>,
    /// What the building has come to.
    pub stage: BuildStage,
}

impl<'a> View for RsaBuild<'a> {
    type V = BuildView;

    closed spec fn view(&self) -> BuildView {
        BuildView { n: self.n@, e: self.e@, stage: self.stage }
    }
}

/// The bytes of a component: there are some, and they do not begin with a zero.
pub open spec fn is_component(bytes: Seq<u8>) -> bool {
    bytes.len() > 0 && bytes[0] != 0
}

fn check_component(bytes: &[u8]) -> (r: bool)
    ensures
        r == is_component(bytes@),
{
    !(bytes.len() == 0 || bytes[0] == 0u8)
}

impl BuildView {
    /// The building at another stage.
    pub open spec fn at(self, stage: BuildStage) -> BuildView {
        BuildView { stage, ..self }
    }

    /// The next call; none where the building is over.
    pub open spec fn next_call(self) -> Option<CallText> {
        match self.stage {
            BuildStage::NewModulus => Some(CallText::BignumFromBytes(self.n)),
            BuildStage::NewExponent { .. } => Some(CallText::BignumFromBytes(self.e)),
            BuildStage::NewRsa { .. } => Some(CallText::RsaNew),
            BuildStage::SetKey { n, e, rsa } => Some(CallText::RsaSet0Key { rsa, n, e }),
            BuildStage::NewPkey { .. } => Some(CallText::PkeyNew),
            BuildStage::AssignRsa { rsa, pkey } => Some(CallText::PkeyAssignRsa { pkey, rsa }),
            BuildStage::Built { .. } | BuildStage::Failed => None,
        }
    }

    /// A reply is of the kind that the next call has.
    pub open spec fn expects(self, reply: Reply) -> bool {
        self.next_call() matches Some(call) && calls::answers(call, reply)
    }

    /// The building after the reply to its next call, and the objects that are to be released
    /// then. A failure releases what is owned, the youngest object first. The exponent is looked
    /// at when the modulus has been made.
    pub open spec fn answer(self, reply: Reply) -> (BuildView, Seq<Object>) {
        match (self.stage, reply) {
            (BuildStage::NewModulus, Reply::Pointer(n)) => if n == 0 {
                (self.at(BuildStage::Failed), seq![])
            } else if is_component(self.e) {
                (self.at(BuildStage::NewExponent { n }), seq![])
            } else {
                (self.at(BuildStage::Failed), seq![Object::Bignum(n)])
            },
            (BuildStage::NewExponent { n }, Reply::Pointer(e)) => if e == 0 {
                (self.at(BuildStage::Failed), seq![Object::Bignum(n)])
            } else {
                (self.at(BuildStage::NewRsa { n, e }), seq![])
            },
            (BuildStage::NewRsa { n, e }, Reply::Pointer(rsa)) => if rsa == 0 {
                (self.at(BuildStage::Failed), seq![Object::Bignum(e), Object::Bignum(n)])
            } else {
                (self.at(BuildStage::SetKey { n, e, rsa }), seq![])
            },
            (BuildStage::SetKey { n, e, rsa }, Reply::Status(status)) => if status == 1 {
                (self.at(BuildStage::NewPkey { rsa }), seq![])
            } else {
                (
                    self.at(BuildStage::Failed),
                    seq![Object::Rsa(rsa), Object::Bignum(e), Object::Bignum(n)],
                )
            },
            (BuildStage::NewPkey { rsa }, Reply::Pointer(pkey)) => if pkey == 0 {
                (self.at(BuildStage::Failed), seq![Object::Rsa(rsa)])
            } else {
                (self.at(BuildStage::AssignRsa { rsa, pkey }), seq![])
            },
            (BuildStage::AssignRsa { rsa, pkey }, Reply::Status(status)) => if status == 1 {
                (self.at(BuildStage::Built { pkey }), seq![])
            } else {
                (self.at(BuildStage::Failed), seq![Object::Pkey(pkey), Object::Rsa(rsa)])
            },
            _ => (self, seq![]),
        }
    }

    /// The address of the key, or an error, once the building is over.
    pub open spec fn result(self) -> Option<Result<usize, Unspecified>> {
        match self.stage {
            BuildStage::Built { pkey } => Some(Ok(pkey)),
            BuildStage::Failed => Some(Err(Unspecified)),
            _ => None,
        }
    }

    /// The objects that the building has to release.
    pub open spec fn owned(self) -> Set<Object> {
        match self.stage {
            BuildStage::NewModulus | BuildStage::Failed => set![],
            BuildStage::NewExponent { n } => set![Object::Bignum(n)],
            BuildStage::NewRsa { n, e } => set![Object::Bignum(n), Object::Bignum(e)],
            BuildStage::SetKey { n, e, rsa } => set![
                Object::Bignum(n),
                Object::Bignum(e),
                Object::Rsa(rsa),
            ],
            BuildStage::NewPkey { rsa } => set![Object::Rsa(rsa)],
            BuildStage::AssignRsa { rsa, pkey } => set![Object::Rsa(rsa), Object::Pkey(pkey)],
            BuildStage::Built { pkey } => set![Object::Pkey(pkey)],
        }
    }

    /// The two numbers are two objects.
    pub open spec fn is_sound(self) -> bool {
        match self.stage {
            BuildStage::NewRsa { n, e } => n != e,
            BuildStage::SetKey { n, e, .. } => n != e,
            _ => true,
        }
    }

    /// How many calls a building at its stage can still make at most.
    pub open spec fn calls_left(self) -> nat {
        match self.stage {
            BuildStage::NewModulus => 6,
            BuildStage::NewExponent { .. } => 5,
            BuildStage::NewRsa { .. } => 4,
            BuildStage::SetKey { .. } => 3,
            BuildStage::NewPkey { .. } => 2,
            BuildStage::AssignRsa { .. } => 1,
            BuildStage::Built { .. } | BuildStage::Failed => 0,
        }
    }
}

/// The start of the building of a key: it fails at once where the modulus is no component.
pub open spec fn build_start(n: Seq<u8>, e: Seq<u8>) -> BuildView {
    BuildView {
        n,
        e,
        stage: if is_component(n) {
            BuildStage::NewModulus
        } else {
            BuildStage::Failed
        },
    }
}

impl<'a> RsaBuild<'a> {
    /// What the building has come to.
    pub fn stage(&self) -> (r: BuildStage)
        ensures
            r == self@.stage,
    {
        self.stage
    }

    /// The next call; none where the building is over.
    pub fn next_call(&self) -> (r: Option<Call<'a>>)
        ensures
            match r {
                Some(call) => self@.next_call() == Some(call@),
                None => self@.next_call() is None,
            },
    {
        match self.stage {
            BuildStage::NewModulus => Some(Call::BignumFromBytes(self.n)),
            BuildStage::NewExponent { .. } => Some(Call::BignumFromBytes(self.e)),
            BuildStage::NewRsa { .. } => Some(Call::RsaNew),
            BuildStage::SetKey { n, e, rsa } => Some(Call::RsaSet0Key { rsa, n, e }),
            BuildStage::NewPkey { .. } => Some(Call::PkeyNew),
            BuildStage::AssignRsa { rsa, pkey } => Some(Call::PkeyAssignRsa { pkey, rsa }),
            BuildStage::Built { .. } | BuildStage::Failed => None,
        }
    }

    /// Takes the reply to the next call, and says which objects are to be released, in order.
    pub fn answer(&mut self, reply: Reply) -> (released: Vec<Object>)
        requires
            old(self)@.expects(reply),
        ensures
            (final(self)@, released@) == old(self)@.answer(reply),
    {
        let mut released: Vec<Object> = Vec::new();
        match (self.stage, reply) {
            (BuildStage::NewModulus, Reply::Pointer(n)) => {
                if n == 0 {
                    self.stage = BuildStage::Failed;
                } else if check_component(self.e) {
                    self.stage = BuildStage::NewExponent { n };
                } else {
                    released.push(Object::Bignum(n));
                    self.stage = BuildStage::Failed;
                }
            },
            (BuildStage::NewExponent { n }, Reply::Pointer(e)) => {
                if e == 0 {
                    released.push(Object::Bignum(n));
                    self.stage = BuildStage::Failed;
                } else {
                    self.stage = BuildStage::NewRsa { n, e };
                }
            },
            (BuildStage::NewRsa { n, e }, Reply::Pointer(rsa)) => {
                if rsa == 0 {
                    released.push(Object::Bignum(e));
                    released.push(Object::Bignum(n));
                    self.stage = BuildStage::Failed;
                } else {
                    self.stage = BuildStage::SetKey { n, e, rsa };
                }
            },
            (BuildStage::SetKey { n, e, rsa }, Reply::Status(status)) => {
                if status == 1 {
                    self.stage = BuildStage::NewPkey { rsa };
                } else {
                    released.push(Object::Rsa(rsa));
                    released.push(Object::Bignum(e));
                    released.push(Object::Bignum(n));
                    self.stage = BuildStage::Failed;
                }
            },
            (BuildStage::NewPkey { rsa }, Reply::Pointer(pkey)) => {
                if pkey == 0 {
                    released.push(Object::Rsa(rsa));
                    self.stage = BuildStage::Failed;
                } else {
                    self.stage = BuildStage::AssignRsa { rsa, pkey };
                }
            },
            (BuildStage::AssignRsa { rsa, pkey }, Reply::Status(status)) => {
                if status == 1 {
                    self.stage = BuildStage::Built { pkey };
                } else {
                    released.push(Object::Pkey(pkey));
                    released.push(Object::Rsa(rsa));
                    self.stage = BuildStage::Failed;
                }
            },
            _ => {},
        }
        assert(released@ =~= old(self)@.answer(reply).1);
        released
    }

    /// The address of the key, or an error, once the building is over.
    pub fn result(&self) -> (r: Option<Result<usize, Unspecified>>)
        ensures
            r == self@.result(),
    {
        match self.stage {
            BuildStage::Built { pkey } => Some(Ok(pkey)),
            BuildStage::Failed => Some(Err(Unspecified)),
            _ => None,
        }
    }
}

/// The building of a key releases each object that it owns once, and no other; what it owns after
/// a step is what it owned before, with what the call has made, without what the call has taken
/// over and without what is released. Every step brings it closer to its end.
pub proof fn building_keeps_custody(build: BuildView, reply: Reply)
    requires
        build.is_sound(),
        build.expects(reply),
        calls::makes_new(build.owned(), build.next_call()->0, reply),
    ensures
        ({
            let after = calls::owned_after(build.owned(), build.next_call()->0, reply);
            let (next, released) = build.answer(reply);
            &&& calls::releases_properly(after, released)
            &&& next.owned() == after.difference(released.to_set())
            &&& next.is_sound()
            &&& next.calls_left() < build.calls_left()
        }),
{
    broadcast use vstd::seq_lib::group_seq_properties;

    let after = calls::owned_after(build.owned(), build.next_call()->0, reply);
    let (next, released) = build.answer(reply);
    assert(next.owned() =~= after.difference(released.to_set())) by {
        if released.len() > 0 {
            assert(released.to_set().contains(released[0]));
        }
        if released.len() > 1 {
            assert(released.to_set().contains(released[1]));
        }
        if released.len() > 2 {
            assert(released.to_set().contains(released[2]));
        }
    }
}

/// The building of a key fails exactly where a component is none or a call fails.
pub proof fn building_fails_with_its_first_failed_call(build: BuildView, reply: Reply)
    requires
        build.expects(reply),
    ensures
        build.answer(reply).0.stage is Failed <==> (!calls::succeeded(reply) || (build.stage
            is NewModulus && !is_component(build.e))),
{
}

/// The building of a key after a series of replies.
pub open spec fn after_replies(build: BuildView, replies: Seq<Reply>) -> BuildView
    decreases replies.len(),
{
    if replies.len() == 0 {
        build
    } else {
        after_replies(build, replies.drop_last()).answer(replies.last()).0
    }
}

/// The objects that are held after a series of replies, counted call by call: what a call has
/// made is held, what a call has taken over or what was released is not.
pub open spec fn held(build: BuildView, replies: Seq<Reply>) -> Set<Object>
    decreases replies.len(),
{
    if replies.len() == 0 {
        set![]
    } else {
        let before = after_replies(build, replies.drop_last());
        let reply = replies.last();
        calls::owned_after(
            held(build, replies.drop_last()),
            before.next_call()->0,
            reply,
        ).difference(before.answer(reply).1.to_set())
    }
}

/// A series of replies answers the calls that the building makes, one after the other, and what
/// a call makes is new.
pub open spec fn plausible(build: BuildView, replies: Seq<Reply>) -> bool
    decreases replies.len(),
{
    replies.len() == 0 || {
        let before = after_replies(build, replies.drop_last());
        &&& plausible(build, replies.drop_last())
        &&& before.expects(replies.last())
        &&& calls::makes_new(
            held(build, replies.drop_last()),
            before.next_call()->0,
            replies.last(),
        )
    }
}

/// Along a series of replies, every step releases only objects that are held then, once each.
pub open spec fn releases_held(build: BuildView, replies: Seq<Reply>) -> bool
    decreases replies.len(),
{
    replies.len() == 0 || {
        let before = after_replies(build, replies.drop_last());
        &&& releases_held(build, replies.drop_last())
        &&& calls::releases_properly(
            calls::owned_after(
                held(build, replies.drop_last()),
                before.next_call()->0,
                replies.last(),
            ),
            before.answer(replies.last()).1,
        )
    }
}

/// Whatever the calls that build a key reply, the objects that are held are those that are still
/// to be released: nothing where the building has failed, and the key alone where it has
/// succeeded. On the way it releases only what it holds, once each. It takes at most six calls.
pub proof fn a_building_leaks_nothing(n: Seq<u8>, e: Seq<u8>, replies: Seq<Reply>)
    requires
        plausible(build_start(n, e), replies),
    ensures
        ({
            let end = after_replies(build_start(n, e), replies);
            let objects = held(build_start(n, e), replies);
            &&& end.is_sound()
            &&& objects == end.owned()
            &&& end.stage is Failed ==> objects == Set::<Object>::empty()
            &&& end.stage matches BuildStage::Built { pkey } ==> objects == set![
                Object::Pkey(pkey),
            ]
            &&& releases_held(build_start(n, e), replies)
            &&& replies.len() + end.calls_left() <= 6
        }),
    decreases replies.len(),
{
    if replies.len() > 0 {
        a_building_leaks_nothing(n, e, replies.drop_last());
        building_keeps_custody(
            after_replies(build_start(n, e), replies.drop_last()),
            replies.last(),
        );
    }
}

/// A key that is built is built from two components: whatever the calls reply, none is built from
/// bytes that are empty or begin with a zero.
pub proof fn only_components_are_built(n: Seq<u8>, e: Seq<u8>, replies: Seq<Reply>)
    requires
        plausible(build_start(n, e), replies),
    ensures
        after_replies(build_start(n, e), replies).stage is Built ==> is_component(n)
            && is_component(e),
{
    built_from_components(n, e, replies);
}

proof fn built_from_components(n: Seq<u8>, e: Seq<u8>, replies: Seq<Reply>)
    requires
        plausible(build_start(n, e), replies),
    ensures
        ({
            let build = after_replies(build_start(n, e), replies);
            &&& build.n == n
            &&& build.e == e
            &&& build.stage is NewModulus ==> is_component(n)
            &&& !(build.stage is NewModulus || build.stage is Failed) ==> is_component(n)
                && is_component(e)
        }),
    decreases replies.len(),
{
    if replies.len() > 0 {
        built_from_components(n, e, replies.drop_last());
    }
}

// ---------------------------------------------------------------------------
// Using a key
// ---------------------------------------------------------------------------

/// The parameters of a verification.
#[derive(Clone, Copy, Debug, PartialEq, Eq, Structural)]
pub struct RsaParameters {
    /// The algorithm that digests the message.
    pub digest: DigestAlgorithm,
    /// The padding of the signature.
    pub signature_padding: RsaPadding,
    /// The size in bits that a key has at least.
    pub min_bits: u32,
    /// The size in bits that a key has at most.
    pub max_bits: u32,
}

impl RsaParameters {
    /// The algorithm that digests the message.
    pub fn digest_algorithm(&self) -> (r: DigestAlgorithm)
        ensures
            r == self.digest,
    {
        self.digest
    }

    /// The padding of the signature.
    pub fn padding(&self) -> (r: RsaPadding)
        ensures
            r == self.signature_padding,
    {
        self.signature_padding
    }

    /// The sizes in bits that a key may have, from the least to the greatest.
    pub fn bit_size_range(&self) -> (r: (u32, u32))
        ensures
            r == (self.min_bits, self.max_bits),
    {
        (self.min_bits, self.max_bits)
    }
}

/// The verification of a signature under a key given by its components.
#[derive(Clone, Copy, Debug)]
pub struct Verification<'a> {
    build: RsaBuild<'a>,
    params: RsaParameters,
    message: &'a [u8],
    signature: &'a [u8],
    outcome: Option<bool>,
}

/// The value of a verification.
#[verifier::ext_equal]
pub struct VerificationView {
    /// The building of the key.
    pub build: BuildView,
    /// The parameters.
    pub params: RsaParameters,
    /// The signed message.
    pub message: Seq<u8>,
    /// The signature.
    pub signature: Seq<u8>,
    /// Whether the signature is valid, once that is known.
    pub outcome: Option<bool>,
}

impl<'a> View for Verification<'a> {
    type V = VerificationView;

    closed spec fn view(&self) -> VerificationView {
        VerificationView {
            build: self.build@,
            params: self.params,
            message: self.message@,
            signature: self.signature@,
            outcome: self.outcome,
        }
    }
}

impl VerificationView {
    /// The next call: those that build the key, then the one that verifies the signature under
    /// it. There is none where the verification is over.
    pub open spec fn next_call(self) -> Option<CallText> {
        match (self.build.stage, self.outcome) {
            (BuildStage::Built { pkey }, None) => Some(
                CallText::VerifySignature {
                    digest: self.params.digest,
                    padding: self.params.signature_padding,
                    pkey,
                    message: self.message,
                    signature: self.signature,
                    min_bits: self.params.min_bits,
                    max_bits: self.params.max_bits,
                },
            ),
            (BuildStage::Built { .. }, Some(_)) => None,
            _ => self.build.next_call(),
        }
    }

    /// A reply is of the kind that the next call has.
    pub open spec fn expects(self, reply: Reply) -> bool {
        self.next_call() matches Some(call) && calls::answers(call, reply)
    }

    /// The verification after the reply to its next call, and the objects that are to be
    /// released then. The key is released when the signature has been looked at.
    pub open spec fn answer(self, reply: Reply) -> (VerificationView, Seq<Object>) {
        match (self.build.stage, reply) {
            (BuildStage::Built { pkey }, Reply::Outcome(valid)) => (
                VerificationView { outcome: Some(valid), ..self },
                seq![Object::Pkey(pkey)],
            ),
            _ => {
                let (build, released) = self.build.answer(reply);
                (VerificationView { build, ..self }, released)
            },
        }
    }

    /// The result, once the verification is over: success exactly where the key was built and
    /// the signature is valid.
    pub open spec fn result(self) -> Option<Result<(), Unspecified>> {
        match (self.build.stage, self.outcome) {
            (BuildStage::Failed, _) => Some(Err(Unspecified)),
            (BuildStage::Built { .. }, Some(true)) => Some(Ok(())),
            (BuildStage::Built { .. }, Some(false)) => Some(Err(Unspecified)),
            _ => None,
        }
    }

    /// What holds of every verification: the key is built from two components, and the signature
    /// is looked at only under a key that is built.
    pub open spec fn is_sound(self) -> bool {
        &&& self.build.is_sound()
        &&& self.build.stage is NewModulus ==> is_component(self.build.n)
        &&& !(self.build.stage is NewModulus || self.build.stage is Failed) ==> is_component(
            self.build.n,
        ) && is_component(self.build.e)
        &&& self.outcome is Some ==> self.build.stage is Built
    }

    /// How many calls the verification can still make at most.
    pub open spec fn calls_left(self) -> nat {
        if self.outcome is Some || self.build.stage is Failed {
            0
        } else {
            self.build.calls_left() + 1
        }
    }

    /// The objects that the verification has to release.
    pub open spec fn owned(self) -> Set<Object> {
        if self.outcome is Some {
            set![]
        } else {
            self.build.owned()
        }
    }
}

impl<'a> Verification<'a> {
    /// The next call; none where the verification is over.
    pub fn next_call(&self) -> (r: Option<Call<'a>>)
        ensures
            match r {
                Some(call) => self@.next_call() == Some(call@),
                None => self@.next_call() is None,
            },
    {
        match (self.build.stage(), self.outcome) {
            (BuildStage::Built { pkey }, None) => {
                let (min_bits, max_bits) = self.params.bit_size_range();
                Some(
                    Call::VerifySignature {
                        digest: self.params.digest_algorithm(),
                        padding: self.params.padding(),
                        pkey,
                        message: self.message,
                        signature: self.signature,
                        min_bits,
                        max_bits,
                    },
                )
            },
            (BuildStage::Built { .. }, Some(_)) => None,
            _ => self.build.next_call(),
        }
    }

    /// Takes the reply to the next call, and says which objects are to be released, in order.
    pub fn answer(&mut self, reply: Reply) -> (released: Vec<Object>)
        requires
            old(self)@.expects(reply),
        ensures
            (final(self)@, released@) == old(self)@.answer(reply),
    {
        match (self.build.stage(), reply) {
            (BuildStage::Built { pkey }, Reply::Outcome(valid)) => {
                self.outcome = Some(valid);
                let mut released: Vec<Object> = Vec::new();
                released.push(Object::Pkey(pkey));
                assert(released@ =~= seq![Object::Pkey(pkey)]);
                released
            },
            _ => self.build.answer(reply),
        }
    }

    /// The result, once the verification is over.
    pub fn result(&self) -> (r: Option<Result<(), Unspecified>>)
        ensures
            r == self@.result(),
    {
        match (self.build.stage(), self.outcome) {
            (BuildStage::Failed, _) => Some(Err(Unspecified)),
            (BuildStage::Built { .. }, Some(true)) => Some(Ok(())),
            (BuildStage::Built { .. }, Some(false)) => Some(Err(Unspecified)),
            _ => None,
        }
    }
}

/// A verification releases each object that it owns once, and no other; and when it is over it
/// owns nothing. Every step brings it closer to its end.
pub proof fn verification_keeps_custody(verification: VerificationView, reply: Reply)
    requires
        verification.is_sound(),
        verification.expects(reply),
        calls::makes_new(verification.owned(), verification.next_call()->0, reply),
    ensures
        ({
            let after = calls::owned_after(
                verification.owned(),
                verification.next_call()->0,
                reply,
            );
            let (next, released) = verification.answer(reply);
            &&& calls::releases_properly(after, released)
            &&& next.owned() == after.difference(released.to_set())
            &&& next.is_sound()
            &&& next.result() is Some ==> next.owned() == Set::<Object>::empty()
            &&& next.calls_left() < verification.calls_left()
        }),
{
    broadcast use vstd::seq_lib::group_seq_properties;

    match verification.build.stage {
        BuildStage::Built { pkey } => {
            let after = calls::owned_after(
                verification.owned(),
                verification.next_call()->0,
                reply,
            );
            let (next, released) = verification.answer(reply);
            assert(released.to_set().contains(released[0]));
            assert(next.owned() =~= after.difference(released.to_set()));
        },
        _ => {
            building_keeps_custody(verification.build, reply);
        },
    }
}

/// A signature is accepted exactly when AWS-LC finds it valid under the key that was built, and
/// that key was built from a modulus and an exponent that are not empty and begin with no zero.
pub proof fn only_valid_signatures_are_accepted(verification: VerificationView, reply: Reply)
    requires
        verification.is_sound(),
        verification.expects(reply),
    ensures
        ({
            let accepted = verification.answer(reply).0.result() == Some(
                Ok::<(), Unspecified>(()),
            );
            &&& accepted <==> verification.next_call()->0 is VerifySignature && reply
                == Reply::Outcome(true)
            &&& accepted ==> is_component(verification.build.n) && is_component(
                verification.build.e,
            )
        }),
{
}

/// A verification after a series of replies.
pub open spec fn verification_after(verification: VerificationView, replies: Seq<Reply>) -> VerificationView
    decreases replies.len(),
{
    if replies.len() == 0 {
        verification
    } else {
        verification_after(verification, replies.drop_last()).answer(replies.last()).0
    }
}

/// The objects that are held after a series of replies, counted call by call: what a call
/// has made is held,
/// what a call has taken over or what was released is not held any more.
pub open spec fn verification_held(verification: VerificationView, replies: Seq<Reply>) -> Set<Object>
    decreases replies.len(),
{
    if replies.len() == 0 {
        set![]
    } else {
        let before = verification_after(verification, replies.drop_last());
        let reply = replies.last();
        calls::owned_after(
            verification_held(verification, replies.drop_last()),
            before.next_call()->0,
            reply,
        ).difference(before.answer(reply).1.to_set())
    }
}

/// A series of replies answers the calls that a verification makes, one after the other, and what a
/// call makes is new.
pub open spec fn verification_plausible(verification: VerificationView, replies: Seq<Reply>) -> bool
    decreases replies.len(),
{
    replies.len() == 0 || {
        let before = verification_after(verification, replies.drop_last());
        &&& verification_plausible(verification, replies.drop_last())
        &&& before.expects(replies.last())
        &&& calls::makes_new(
            verification_held(verification, replies.drop_last()),
            before.next_call()->0,
            replies.last(),
        )
    }
}

/// Along a series of replies, every step releases only objects that are held then, once each.
pub open spec fn verification_releases_held(verification: VerificationView, replies: Seq<Reply>) -> bool
    decreases replies.len(),
{
    replies.len() == 0 || {
        let before = verification_after(verification, replies.drop_last());
        &&& verification_releases_held(verification, replies.drop_last())
        &&& calls::releases_properly(
            calls::owned_after(
                verification_held(verification, replies.drop_last()),
                before.next_call()->0,
                replies.last(),
            ),
            before.answer(replies.last()).1,
        )
    }
}

/// The verification that `verify` starts.
pub open spec fn verification_start(
    n: Seq<u8>,
    e: Seq<u8>,
    params: RsaParameters,
    message: Seq<u8>,
    signature: Seq<u8>,
) -> VerificationView {
    VerificationView { build: build_start(n, e), params, message, signature, outcome: None }
}

/// Whatever the calls of a verification reply, the objects that are held are those that are still
/// to be released, and nothing once there is a result. On the way it releases only what it holds,
/// once each. It takes at most seven calls. A signature is accepted only where every call has
/// succeeded, the last of which found it valid, and both components are proper.
pub proof fn a_verification_leaks_nothing(
    n: Seq<u8>,
    e: Seq<u8>,
    params: RsaParameters,
    message: Seq<u8>,
    signature: Seq<u8>,
    replies: Seq<Reply>,
)
    requires
        verification_plausible(verification_start(n, e, params, message, signature), replies),
    ensures
        ({
            let start = verification_start(n, e, params, message, signature);
            let end = verification_after(start, replies);
            let objects = verification_held(start, replies);
            &&& end.is_sound()
            &&& end.build.n == n
            &&& end.build.e == e
            &&& objects == end.owned()
            &&& end.result() is Some ==> objects == Set::<Object>::empty()
            &&& verification_releases_held(start, replies)
            &&& replies.len() + end.calls_left() <= 7
            &&& end.result() != Some(Err::<(), Unspecified>(Unspecified)) ==> (forall|i: int|
                0 <= i < replies.len() ==> calls::succeeded(#[trigger] replies[i]))
            &&& end.result() == Some(Ok::<(), Unspecified>(())) ==> replies.last()
                == Reply::Outcome(true) && is_component(n) && is_component(e)
        }),
    decreases replies.len(),
{
    let start = verification_start(n, e, params, message, signature);
    if replies.len() > 0 {
        let fewer = replies.drop_last();
        let before = verification_after(start, fewer);
        a_verification_leaks_nothing(n, e, params, message, signature, fewer);
        verification_keeps_custody(before, replies.last());
        assert forall|i: int|
            verification_after(start, replies).result() != Some(
                Err::<(), Unspecified>(Unspecified),
            ) && 0 <= i < replies.len() implies calls::succeeded(#[trigger] replies[i]) by {
            if i < fewer.len() {
                assert(fewer[i] == replies[i]);
            }
        }
    }
}

proof fn one_more_verification_reply(verification: VerificationView, replies: Seq<Reply>, reply: Reply)
    ensures
        verification_after(verification, replies.push(reply)) == verification_after(
            verification,
            replies,
        ).answer(reply).0,
{
    assert(replies.push(reply).drop_last() =~= replies);
}

/// A verification under two proper components, all of whose calls that build the key succeed,
/// accepts the signature exactly where AWS-LC finds it valid.
pub proof fn a_verification_gives_the_verdict(
    start: VerificationView,
    n: usize,
    e: usize,
    rsa: usize,
    pkey: usize,
    valid: bool,
)
    requires
        is_component(start.build.n),
        is_component(start.build.e),
        start.build == build_start(start.build.n, start.build.e),
        start.outcome is None,
        n != 0,
        e != 0,
        rsa != 0,
        pkey != 0,
    ensures
        verification_after(
            start,
            seq![
                Reply::Pointer(n),
                Reply::Pointer(e),
                Reply::Pointer(rsa),
                Reply::Status(1),
                Reply::Pointer(pkey),
                Reply::Status(1),
                Reply::Outcome(valid),
            ],
        ).result() == Some(
            if valid {
                Ok::<(), Unspecified>(())
            } else {
                Err(Unspecified)
            },
        ),
{
    let r0 = Seq::<Reply>::empty();
    let r1 = r0.push(Reply::Pointer(n));
    let r2 = r1.push(Reply::Pointer(e));
    let r3 = r2.push(Reply::Pointer(rsa));
    let r4 = r3.push(Reply::Status(1));
    let r5 = r4.push(Reply::Pointer(pkey));
    let r6 = r5.push(Reply::Status(1));
    let r7 = r6.push(Reply::Outcome(valid));
    one_more_verification_reply(start, r0, Reply::Pointer(n));
    one_more_verification_reply(start, r1, Reply::Pointer(e));
    one_more_verification_reply(start, r2, Reply::Pointer(rsa));
    one_more_verification_reply(start, r3, Reply::Status(1));
    one_more_verification_reply(start, r4, Reply::Pointer(pkey));
    one_more_verification_reply(start, r5, Reply::Status(1));
    one_more_verification_reply(start, r6, Reply::Outcome(valid));
    assert(verification_after(start, r0) == start);
    assert(r7 =~= seq![
        Reply::Pointer(n),
        Reply::Pointer(e),
        Reply::Pointer(rsa),
        Reply::Status(1),
        Reply::Pointer(pkey),
        Reply::Status(1),
        Reply::Outcome(valid),
    ]);
}

/// Something that holds the bytes of a component.
pub trait ByteSource {
    /// The bytes.
    spec fn bytes(&self) -> Seq<u8>;

    /// The bytes.
    fn as_bytes(&self) -> (r: &[u8])
        ensures
            r@ == self.bytes(),
    ;
}

impl ByteSource for Vec<u8> {
    open spec fn bytes(&self) -> Seq<u8> {
        self@
    }

    fn as_bytes(&self) -> (r: &[u8]) {
        self.as_slice()
    }
}

impl<'b> ByteSource for &'b [u8] {
    open spec fn bytes(&self) -> Seq<u8> {
        self@
    }

    fn as_bytes(&self) -> (r: &[u8]) {
        *self
    }
}

impl ByteSource for Box<[u8]> {
    open spec fn bytes(&self) -> Seq<u8> {
        self@
    }

    fn as_bytes(&self) -> (r: &[u8]) {
        self
    }
}

impl<const N: usize> ByteSource for [u8; N] {
    open spec fn bytes(&self) -> Seq<u8> {
        self@
    }

    fn as_bytes(&self) -> (r: &[u8]) {
        self.as_slice()
    }
}

/// Low-level API for RSA public keys.
#[derive(Clone, Copy)]
pub struct PublicKeyComponents<B> where B: ByteSource {
    /// The public modulus, encoded in big-endian bytes without leading zeros.
    pub n: B,
    /// The public exponent, encoded in big-endian bytes without leading zeros.
    pub e: B,
}

impl<B> PublicKeyComponents<B> where B: ByteSource {
    /// Starts the building of the key, which verifies signatures or encrypts.
    pub fn build_rsa<'a>(&'a self) -> (r: RsaBuild<'a>)
        ensures
            r@ == build_start(self.n.bytes(), self.e.bytes()),
    {
        let n = self.n.as_bytes();
        let e = self.e.as_bytes();
        let stage = if check_component(n) {
            BuildStage::NewModulus
        } else {
            BuildStage::Failed
        };
        RsaBuild { n, e, stage }
    }

    /// Starts to verify that `signature` is a valid signature of `message` using `self`
    /// as the public key. `params` determine what algorithm parameters
    /// (padding, digest algorithm, key length range, etc.) are used in the
    /// verification.
    pub fn verify<'a>(
        &'a self,
        params: &RsaParameters,
        message: &'a [u8],
        signature: &'a [u8],
    ) -> (r: Verification<'a>)
        ensures
            r@ == verification_start(
                self.n.bytes(),
                self.e.bytes(),
                *params,
                message@,
                signature@,
            ),
            r@.is_sound(),
    {
        Verification { build: self.build_rsa(), params: *params, message, signature, outcome: None }
    }
}

} // verus!
