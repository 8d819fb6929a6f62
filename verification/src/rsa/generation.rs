//! The generation of an RSA key.

use vstd::prelude::*;

use crate::rsa::calls;
use crate::rsa::calls::{Call, CallText, Object, Reply};

verus! {

/// The public exponent of generated keys outside FIPS mode, the Fermat number F4.
pub const RSA_F4: u64 = 65537;

/// What a generation has come to.
#[derive(Clone, Copy, Debug, PartialEq, Eq, Structural)]
pub enum GenerationStage {
    /// An empty RSA key is to be made.
    NewRsa,
    /// The public exponent is to be made.
    NewExponent { rsa: usize },
    /// The key is to be generated with the public exponent.
    Generate { rsa: usize, e: usize },
    /// The key is to be generated as FIPS wants it.
    GenerateFips { rsa: usize },
    /// The `EVP_PKEY` for the key is to be made.
    NewPkey { rsa: usize },
    /// The `EVP_PKEY` is to take over the key.
    AssignRsa { rsa: usize, pkey: usize },
    /// The key is generated.
    Generated { pkey: usize },
    /// The generation has failed.
    Failed,
}

/// The generation of an RSA key.
///
/// `EVP_PKEY_keygen` is not used, as it picks the FIPS or the other generation function by the
/// build of AWS-LC. Here the caller picks.
#[derive(Clone, Copy, Debug, PartialEq, Eq, Structural)]
pub struct KeyGeneration {
    bits: i32,
    fips: bool,
    stage: GenerationStage,
}

/// The value of the generation of an RSA key.
pub struct GenerationView {
    /// The size of the key in bits.
    pub bits: i32,
    /// The key is generated as FIPS wants it.
    pub fips: bool,
    /// What the generation has come to.
    pub stage: GenerationStage,
}

impl View for KeyGeneration {
    type V = GenerationView;

    closed spec fn view(&self) -> GenerationView {
        GenerationView { bits: self.bits, fips: self.fips, stage: self.stage }
    }
}

/// The start of the generation of an RSA key.
pub open spec fn generation_start(bits: i32, fips: bool) -> GenerationView {
    GenerationView { bits, fips, stage: GenerationStage::NewRsa }
}

/// Starts the generation of an RSA key of a size in bits.
pub fn generate_rsa_key(size: i32, fips: bool) -> (r: KeyGeneration)
    ensures
        r@ == generation_start(size, fips),
{
    KeyGeneration { bits: size, fips, stage: GenerationStage::NewRsa }
}

impl GenerationView {
    /// The generation at another stage.
    pub open spec fn at(self, stage: GenerationStage) -> GenerationView {
        GenerationView { stage, ..self }
    }

    /// The next call; none where the generation is over.
    pub open spec fn next_call(self) -> Option<CallText> {
        match self.stage {
            GenerationStage::NewRsa => Some(CallText::RsaNew),
            GenerationStage::NewExponent { .. } => Some(CallText::BignumFromU64(RSA_F4)),
            GenerationStage::Generate { rsa, e } => Some(
                CallText::RsaGenerateKeyEx { rsa, bits: self.bits, e },
            ),
            GenerationStage::GenerateFips { rsa } => Some(
                CallText::RsaGenerateKeyFips { rsa, bits: self.bits },
            ),
            GenerationStage::NewPkey { .. } => Some(CallText::PkeyNew),
            GenerationStage::AssignRsa { rsa, pkey } => Some(
                CallText::PkeyAssignRsa { pkey, rsa },
            ),
            GenerationStage::Generated { .. } | GenerationStage::Failed => None,
        }
    }

    /// A reply is of the kind that the next call has.
    pub open spec fn expects(self, reply: Reply) -> bool {
        self.next_call() matches Some(call) && calls::answers(call, reply)
    }

    /// The generation after the reply to its next call, and the objects that are to be released
    /// then. A failure releases what is owned, the youngest object first; the public exponent is
    /// released as soon as the key is generated.
    pub open spec fn answer(self, reply: Reply) -> (GenerationView, Seq<Object>) {
        match (self.stage, reply) {
            (GenerationStage::NewRsa, Reply::Pointer(rsa)) => if rsa == 0 {
                (self.at(GenerationStage::Failed), seq![])
            } else if self.fips {
                (self.at(GenerationStage::GenerateFips { rsa }), seq![])
            } else {
                (self.at(GenerationStage::NewExponent { rsa }), seq![])
            },
            (GenerationStage::NewExponent { rsa }, Reply::Pointer(e)) => if e == 0 {
                (self.at(GenerationStage::Failed), seq![Object::Rsa(rsa)])
            } else {
                (self.at(GenerationStage::Generate { rsa, e }), seq![])
            },
            (GenerationStage::Generate { rsa, e }, Reply::Status(status)) => if status == 1 {
                (self.at(GenerationStage::NewPkey { rsa }), seq![Object::Bignum(e)])
            } else {
                (self.at(GenerationStage::Failed), seq![Object::Bignum(e), Object::Rsa(rsa)])
            },
            (GenerationStage::GenerateFips { rsa }, Reply::Status(status)) => if status == 1 {
                (self.at(GenerationStage::NewPkey { rsa }), seq![])
            } else {
                (self.at(GenerationStage::Failed), seq![Object::Rsa(rsa)])
            },
            (GenerationStage::NewPkey { rsa }, Reply::Pointer(pkey)) => if pkey == 0 {
                (self.at(GenerationStage::Failed), seq![Object::Rsa(rsa)])
            } else {
                (self.at(GenerationStage::AssignRsa { rsa, pkey }), seq![])
            },
            (GenerationStage::AssignRsa { rsa, pkey }, Reply::Status(status)) => if status == 1 {
                (self.at(GenerationStage::Generated { pkey }), seq![])
            } else {
                (self.at(GenerationStage::Failed), seq![Object::Pkey(pkey), Object::Rsa(rsa)])
            },
            _ => (self, seq![]),
        }
    }

    /// The objects that the generation has to release.
    pub open spec fn owned(self) -> Set<Object> {
        match self.stage {
            GenerationStage::NewRsa | GenerationStage::Failed => set![],
            GenerationStage::NewExponent { rsa } => set![Object::Rsa(rsa)],
            GenerationStage::Generate { rsa, e } => set![Object::Rsa(rsa), Object::Bignum(e)],
            GenerationStage::GenerateFips { rsa } => set![Object::Rsa(rsa)],
            GenerationStage::NewPkey { rsa } => set![Object::Rsa(rsa)],
            GenerationStage::AssignRsa { rsa, pkey } => set![Object::Rsa(rsa), Object::Pkey(pkey)],
            GenerationStage::Generated { pkey } => set![Object::Pkey(pkey)],
        }
    }

    /// How many calls a generation at its stage can still make at most.
    pub open spec fn calls_left(self) -> nat {
        match self.stage {
            GenerationStage::NewRsa => 5,
            GenerationStage::NewExponent { .. } => 4,
            GenerationStage::Generate { .. } | GenerationStage::GenerateFips { .. } => 3,
            GenerationStage::NewPkey { .. } => 2,
            GenerationStage::AssignRsa { .. } => 1,
            GenerationStage::Generated { .. } | GenerationStage::Failed => 0,
        }
    }
}

impl KeyGeneration {
    /// What the generation has come to.
    pub fn stage(&self) -> (r: GenerationStage)
        ensures
            r == self@.stage,
    {
        self.stage
    }

    /// The next call; none where the generation is over.
    pub fn next_call(&self) -> (r: Option<Call<'static>>)
        ensures
            match r {
                Some(call) => self@.next_call() == Some(call@),
                None => self@.next_call() is None,
            },
    {
        match self.stage {
            GenerationStage::NewRsa => Some(Call::RsaNew),
            GenerationStage::NewExponent { .. } => Some(Call::BignumFromU64(RSA_F4)),
            GenerationStage::Generate { rsa, e } => Some(
                Call::RsaGenerateKeyEx { rsa, bits: self.bits, e },
            ),
            GenerationStage::GenerateFips { rsa } => Some(
                Call::RsaGenerateKeyFips { rsa, bits: self.bits },
            ),
            GenerationStage::NewPkey { .. } => Some(Call::PkeyNew),
            GenerationStage::AssignRsa { rsa, pkey } => Some(Call::PkeyAssignRsa { pkey, rsa }),
            GenerationStage::Generated { .. } | GenerationStage::Failed => None,
        }
    }

    /// Takes the reply to the next call, and says which objects are to be released, in order.
    pub fn answer(&mut self, reply: Reply) -> (released: Vec<Object>)
        requires
            old(self)@.expects(reply),
        ensures
            (final(self)@, released@) == old(self)@.answer(reply),
    {
        let mut released: Vec<Object> = Vec::new();
        match (self.stage, reply) {
            (GenerationStage::NewRsa, Reply::Pointer(rsa)) => {
                if rsa == 0 {
                    self.stage = GenerationStage::Failed;
                } else if self.fips {
                    self.stage = GenerationStage::GenerateFips { rsa };
                } else {
                    self.stage = GenerationStage::NewExponent { rsa };
                }
            },
            (GenerationStage::NewExponent { rsa }, Reply::Pointer(e)) => {
                if e == 0 {
                    released.push(Object::Rsa(rsa));
                    self.stage = GenerationStage::Failed;
                } else {
                    self.stage = GenerationStage::Generate { rsa, e };
                }
            },
            (GenerationStage::Generate { rsa, e }, Reply::Status(status)) => {
                released.push(Object::Bignum(e));
                if status == 1 {
                    self.stage = GenerationStage::NewPkey { rsa };
                } else {
                    released.push(Object::Rsa(rsa));
                    self.stage = GenerationStage::Failed;
                }
            },
            (GenerationStage::GenerateFips { rsa }, Reply::Status(status)) => {
                if status == 1 {
                    self.stage = GenerationStage::NewPkey { rsa };
                } else {
                    released.push(Object::Rsa(rsa));
                    self.stage = GenerationStage::Failed;
                }
            },
            (GenerationStage::NewPkey { rsa }, Reply::Pointer(pkey)) => {
                if pkey == 0 {
                    released.push(Object::Rsa(rsa));
                    self.stage = GenerationStage::Failed;
                } else {
                    self.stage = GenerationStage::AssignRsa { rsa, pkey };
                }
            },
            (GenerationStage::AssignRsa { rsa, pkey }, Reply::Status(status)) => {
                if status == 1 {
                    self.stage = GenerationStage::Generated { pkey };
                } else {
                    released.push(Object::Pkey(pkey));
                    released.push(Object::Rsa(rsa));
                    self.stage = GenerationStage::Failed;
                }
            },
            _ => {},
        }
        assert(released@ =~= old(self)@.answer(reply).1);
        released
    }
}

/// A generation releases each object that it owns once, and no other; what it owns after a step
/// is what it owned before, with what the call has made, without what the call has taken over
/// and without what is released. Every step brings it closer to its end.
pub proof fn generation_keeps_custody(generation: GenerationView, reply: Reply)
    requires
        generation.expects(reply),
        calls::makes_new(generation.owned(), generation.next_call()->0, reply),
    ensures
        ({
            let after = calls::owned_after(
                generation.owned(),
                generation.next_call()->0,
                reply,
            );
            let (next, released) = generation.answer(reply);
            &&& calls::releases_properly(after, released)
            &&& next.owned() == after.difference(released.to_set())
            &&& next.calls_left() < generation.calls_left()
        }),
{
    broadcast use vstd::seq_lib::group_seq_properties;

    let after = calls::owned_after(generation.owned(), generation.next_call()->0, reply);
    let (next, released) = generation.answer(reply);
    assert(next.owned() =~= after.difference(released.to_set())) by {
        if released.len() > 0 {
            assert(released.to_set().contains(released[0]));
        }
        if released.len() > 1 {
            assert(released.to_set().contains(released[1]));
        }
    }
}

/// A generation goes on as long as its calls succeed, and fails with the first call that fails.
pub proof fn generation_fails_with_its_first_failed_call(generation: GenerationView, reply: Reply)
    requires
        generation.expects(reply),
    ensures
        generation.answer(reply).0.stage is Failed <==> !calls::succeeded(reply),
{
}

/// The generation after a series of replies.
pub open spec fn after_replies(generation: GenerationView, replies: Seq<Reply>) -> GenerationView
    decreases replies.len(),
{
    if replies.len() == 0 {
        generation
    } else {
        after_replies(generation, replies.drop_last()).answer(replies.last()).0
    }
}

/// The objects that are held after a series of replies, counted call by call: what a call has
/// made is held, what a call has taken over or what was released is not.
pub open spec fn held(generation: GenerationView, replies: Seq<Reply>) -> Set<Object>
    decreases replies.len(),
{
    if replies.len() == 0 {
        set![]
    } else {
        let before = after_replies(generation, replies.drop_last());
        let reply = replies.last();
        calls::owned_after(
            held(generation, replies.drop_last()),
            before.next_call()->0,
            reply,
        ).difference(before.answer(reply).1.to_set())
    }
}

/// A series of replies answers the calls that a generation makes, one after the other, and what
/// a call makes is new.
pub open spec fn plausible(generation: GenerationView, replies: Seq<Reply>) -> bool
    decreases replies.len(),
{
    replies.len() == 0 || {
        let before = after_replies(generation, replies.drop_last());
        &&& plausible(generation, replies.drop_last())
        &&& before.expects(replies.last())
        &&& calls::makes_new(
            held(generation, replies.drop_last()),
            before.next_call()->0,
            replies.last(),
        )
    }
}

/// Along a series of replies, every step releases only objects that are held then, once each.
pub open spec fn releases_held(generation: GenerationView, replies: Seq<Reply>) -> bool
    decreases replies.len(),
{
    replies.len() == 0 || {
        let before = after_replies(generation, replies.drop_last());
        &&& releases_held(generation, replies.drop_last())
        &&& calls::releases_properly(
            calls::owned_after(
                held(generation, replies.drop_last()),
                before.next_call()->0,
                replies.last(),
            ),
            before.answer(replies.last()).1,
        )
    }
}

/// Whatever the calls of a generation reply, it holds exactly the objects that it has to
/// release: nothing where it has failed, and the new key alone where it has succeeded. On the
/// way it releases only what it holds, once each. It makes at most five calls.
pub proof fn a_generation_leaks_nothing(bits: i32, fips: bool, replies: Seq<Reply>)
    requires
        plausible(generation_start(bits, fips), replies),
    ensures
        ({
            let start = generation_start(bits, fips);
            let end = after_replies(start, replies);
            let objects = held(start, replies);
            &&& objects == end.owned()
            &&& end.stage is Failed ==> objects == Set::<Object>::empty()
            &&& end.stage matches GenerationStage::Generated { pkey } ==> objects == set![
                Object::Pkey(pkey),
            ]
            &&& releases_held(start, replies)
            &&& replies.len() + end.calls_left() <= 5
        }),
    decreases replies.len(),
{
    let start = generation_start(bits, fips);
    if replies.len() > 0 {
        a_generation_leaks_nothing(bits, fips, replies.drop_last());
        generation_keeps_custody(after_replies(start, replies.drop_last()), replies.last());
    }
}

proof fn one_more_reply(generation: GenerationView, replies: Seq<Reply>, reply: Reply)
    ensures
        after_replies(generation, replies.push(reply)) == after_replies(
            generation,
            replies,
        ).answer(reply).0,
{
    assert(replies.push(reply).drop_last() =~= replies);
}

/// A generation all of whose calls succeed gives the key that was made last. It takes four calls
/// in FIPS mode and five outside it.
pub proof fn a_generation_makes_a_key(bits: i32, fips: bool, rsa: usize, e: usize, pkey: usize)
    requires
        rsa != 0,
        e != 0,
        pkey != 0,
    ensures
        ({
            let start = generation_start(bits, fips);
            let replies = if fips {
                seq![Reply::Pointer(rsa), Reply::Status(1), Reply::Pointer(pkey), Reply::Status(1)]
            } else {
                seq![
                    Reply::Pointer(rsa),
                    Reply::Pointer(e),
                    Reply::Status(1),
                    Reply::Pointer(pkey),
                    Reply::Status(1),
                ]
            };
            after_replies(start, replies) == start.at(GenerationStage::Generated { pkey })
        }),
{
    let start = generation_start(bits, fips);
    let r0 = Seq::<Reply>::empty();
    let r1 = r0.push(Reply::Pointer(rsa));
    let r2 = if fips {
        r1
    } else {
        r1.push(Reply::Pointer(e))
    };
    let r3 = r2.push(Reply::Status(1));
    let r4 = r3.push(Reply::Pointer(pkey));
    one_more_reply(start, r0, Reply::Pointer(rsa));
    one_more_reply(start, r1, Reply::Pointer(e));
    one_more_reply(start, r2, Reply::Status(1));
    one_more_reply(start, r3, Reply::Pointer(pkey));
    one_more_reply(start, r4, Reply::Status(1));
    assert(after_replies(start, r0) == start);
    if fips {
        assert(r4.push(Reply::Status(1)) =~= seq![
            Reply::Pointer(rsa),
            Reply::Status(1),
            Reply::Pointer(pkey),
            Reply::Status(1),
        ]);
    } else {
        assert(r4.push(Reply::Status(1)) =~= seq![
            Reply::Pointer(rsa),
            Reply::Pointer(e),
            Reply::Status(1),
            Reply::Pointer(pkey),
            Reply::Status(1),
        ]);
    }
}

} // verus!
