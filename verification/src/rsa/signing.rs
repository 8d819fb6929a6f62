//! Signing with an RSA key.

use vstd::prelude::*;

use crate::rsa::calls;
use crate::rsa::calls::{Call, CallText, DigestAlgorithm, Object, Reply, RsaPadding};
use crate::rsa::error::Unspecified;

verus! {

/// How a signature is made of a message.
#[derive(Clone, Copy, Debug, PartialEq, Eq, Structural)]
pub struct RsaSignatureEncoding {
    /// The algorithm that digests the message.
    pub digest: DigestAlgorithm,
    /// The padding of the digest.
    pub signature_padding: RsaPadding,
}

impl RsaSignatureEncoding {
    /// The algorithm that digests the message.
    pub fn digest_algorithm(&self) -> (r: DigestAlgorithm)
        ensures
            r == self.digest,
    {
        self.digest
    }

    /// The padding of the digest.
    pub fn padding(&self) -> (r: RsaPadding)
        ensures
            r == self.signature_padding,
    {
        self.signature_padding
    }
}

/// What the making of a signature has come to.
#[derive(Clone, Copy, Debug, PartialEq, Eq, Structural)]
pub enum SigningStage {
    /// The signature is to be started.
    Init,
    /// PSS padding is to be chosen, through the `EVP_PKEY_CTX`, which AWS-LC owns.
    ConfigurePss { pctx: usize },
    /// The length of the signature is to be asked for.
    Length,
    /// The signature is to be computed.
    Compute,
    /// The signature is made.
    Signed,
    /// No signature is made.
    Failed,
}

/// The making of a signature.
#[derive(Clone, Copy, Debug)]
pub struct Signing<'a> {
    pkey: usize,
    encoding: RsaSignatureEncoding,
    message: &'a [u8],
    signature_len: usize,
    stage: SigningStage,
}

/// The value of the making of a signature.
#[verifier::ext_equal]
pub struct SigningView {
    /// The address of the key.
    pub pkey: usize,
    /// How the signature is made.
    pub encoding: RsaSignatureEncoding,
    /// The message.
    pub message: Seq<u8>,
    /// The length of the buffer for the signature.
    pub signature_len: usize,
    /// What has been done.
    pub stage: SigningStage,
}

impl<'a> View for Signing<'a> {
    type V = SigningView;

    closed spec fn view(&self) -> SigningView {
        SigningView {
            pkey: self.pkey,
            encoding: self.encoding,
            message: self.message@,
            signature_len: self.signature_len,
            stage: self.stage,
        }
    }
}

impl SigningView {
    /// The making of the signature at another stage.
    pub open spec fn at(self, stage: SigningStage) -> SigningView {
        SigningView { stage, ..self }
    }

    /// The signature is made, or cannot be made.
    pub open spec fn is_over(self) -> bool {
        self.stage is Signed || self.stage is Failed
    }

    /// The next call; none where nothing is left to do.
    pub open spec fn next_call(self) -> Option<CallText> {
        match self.stage {
            SigningStage::Init => Some(
                CallText::DigestSignInit { digest: self.encoding.digest, pkey: self.pkey },
            ),
            SigningStage::ConfigurePss { pctx } => Some(CallText::ConfigurePss { pctx }),
            SigningStage::Length => Some(CallText::SignatureLength),
            SigningStage::Compute => Some(
                CallText::ComputeSignature {
                    message: self.message,
                    signature_len: self.signature_len,
                },
            ),
            SigningStage::Signed | SigningStage::Failed => None,
        }
    }

    /// A reply is of the kind that the next call has.
    pub open spec fn expects(self, reply: Reply) -> bool {
        self.next_call() matches Some(call) && calls::answers(call, reply)
    }

    /// The stage after the reply to the next call. Only PSS padding is chosen through the
    /// `EVP_PKEY_CTX`, so only there has it to exist.
    pub open spec fn next_stage(self, reply: Reply) -> SigningStage {
        match (self.stage, reply) {
            (SigningStage::Init, Reply::SignInit { status, pctx }) => if status != 1 {
                SigningStage::Failed
            } else if self.encoding.signature_padding == RsaPadding::Pkcs1 {
                SigningStage::Length
            } else if pctx == 0 {
                SigningStage::Failed
            } else {
                SigningStage::ConfigurePss { pctx }
            },
            (SigningStage::ConfigurePss { .. }, Reply::Outcome(success)) => if success {
                SigningStage::Length
            } else {
                SigningStage::Failed
            },
            (SigningStage::Length, Reply::Length(length)) => if length is Some {
                SigningStage::Compute
            } else {
                SigningStage::Failed
            },
            (SigningStage::Compute, Reply::Length(length)) => if length is Some {
                SigningStage::Signed
            } else {
                SigningStage::Failed
            },
            _ => self.stage,
        }
    }

    /// The making of the signature after the reply to its next call, and the objects that are to
    /// be released then: the context of the signature, at the end.
    pub open spec fn answer(self, reply: Reply) -> (SigningView, Seq<Object>) {
        let next = self.at(self.next_stage(reply));
        (
            next,
            if next.is_over() {
                seq![Object::DigestContext]
            } else {
                seq![]
            },
        )
    }

    /// A reply is consistent with a buffer of the length of a signature: the signature fits, and
    /// fills the buffer.
    pub open spec fn is_consistent(self, reply: Reply) -> bool {
        match (self.stage, reply) {
            (SigningStage::Length, Reply::Length(Some(max_len))) => self.signature_len >= max_len,
            (SigningStage::Compute, Reply::Length(Some(len))) => len >= self.signature_len,
            _ => true,
        }
    }

    /// The result, once nothing is left to do.
    pub open spec fn result(self) -> Option<Result<(), Unspecified>> {
        match self.stage {
            SigningStage::Signed => Some(Ok(())),
            SigningStage::Failed => Some(Err(Unspecified)),
            _ => None,
        }
    }

    /// The objects that are still to be released.
    pub open spec fn owned(self) -> Set<Object> {
        if self.is_over() {
            set![]
        } else {
            set![Object::DigestContext]
        }
    }

    /// How many calls can still be made at most.
    pub open spec fn calls_left(self) -> nat {
        match self.stage {
            SigningStage::Init => 4,
            SigningStage::ConfigurePss { .. } => 3,
            SigningStage::Length => 2,
            SigningStage::Compute => 1,
            SigningStage::Signed | SigningStage::Failed => 0,
        }
    }
}

impl<'a> Signing<'a> {
    /// Starts the making of a signature of `message` under the key at `pkey`, into a buffer of
    /// `signature_len` bytes. The context of the signature belongs to it from the start.
    pub(crate) fn start(
        pkey: usize,
        encoding: &RsaSignatureEncoding,
        message: &'a [u8],
        signature_len: usize,
    ) -> (r: Self)
        ensures
            r@ == signing_start(pkey, *encoding, message@, signature_len),
    {
        Signing { pkey, encoding: *encoding, message, signature_len, stage: SigningStage::Init }
    }

    /// The next call; none where nothing is left to do.
    pub fn next_call(&self) -> (r: Option<Call<'a>>)
        ensures
            match r {
                Some(call) => self@.next_call() == Some(call@),
                None => self@.next_call() is None,
            },
    {
        match self.stage {
            SigningStage::Init => Some(
                Call::DigestSignInit { digest: self.encoding.digest_algorithm(), pkey: self.pkey },
            ),
            SigningStage::ConfigurePss { pctx } => Some(Call::ConfigurePss { pctx }),
            SigningStage::Length => Some(Call::SignatureLength),
            SigningStage::Compute => Some(
                Call::ComputeSignature {
                    message: self.message,
                    signature_len: self.signature_len,
                },
            ),
            SigningStage::Signed | SigningStage::Failed => None,
        }
    }

    /// Takes the reply to the next call, and says which objects are to be released.
    pub fn answer(&mut self, reply: Reply) -> (released: Vec<Object>)
        requires
            old(self)@.expects(reply),
        ensures
            (final(self)@, released@) == old(self)@.answer(reply),
    {
        let stage = match (self.stage, reply) {
            (SigningStage::Init, Reply::SignInit { status, pctx }) => {
                if 1 != status {
                    SigningStage::Failed
                } else {
                    match self.encoding.padding() {
                        RsaPadding::Pkcs1 => SigningStage::Length,
                        RsaPadding::Pkcs1Pss => if pctx == 0 {
                            SigningStage::Failed
                        } else {
                            SigningStage::ConfigurePss { pctx }
                        },
                    }
                }
            },
            (SigningStage::ConfigurePss { .. }, Reply::Outcome(true)) => SigningStage::Length,
            (SigningStage::Length, Reply::Length(Some(_))) => SigningStage::Compute,
            (SigningStage::Compute, Reply::Length(Some(_))) => SigningStage::Signed,
            _ => SigningStage::Failed,
        };
        self.stage = stage;
        let mut released: Vec<Object> = Vec::new();
        match stage {
            SigningStage::Signed | SigningStage::Failed => {
                released.push(Object::DigestContext);
            },
            _ => {},
        }
        assert(released@ =~= old(self)@.answer(reply).1);
        released
    }

    /// Tells whether a reply is consistent with a buffer of the length of a signature.
    pub fn is_consistent(&self, reply: &Reply) -> (r: bool)
        ensures
            r == self@.is_consistent(*reply),
    {
        match (self.stage, *reply) {
            (SigningStage::Length, Reply::Length(Some(max_len))) => self.signature_len >= max_len,
            (SigningStage::Compute, Reply::Length(Some(len))) => len >= self.signature_len,
            _ => true,
        }
    }

    /// The result, once nothing is left to do.
    pub fn result(&self) -> (r: Option<Result<(), Unspecified>>)
        ensures
            r == self@.result(),
    {
        match self.stage {
            SigningStage::Signed => Some(Ok(())),
            SigningStage::Failed => Some(Err(Unspecified)),
            _ => None,
        }
    }
}

/// The context of a signature is released once, when there is a result, and never before. Every
/// call brings the result closer.
pub proof fn signing_keeps_custody(signing: SigningView, reply: Reply)
    requires
        signing.expects(reply),
    ensures
        ({
            let after = calls::owned_after(signing.owned(), signing.next_call()->0, reply);
            let (next, released) = signing.answer(reply);
            &&& calls::releases_properly(after, released)
            &&& next.owned() == after.difference(released.to_set())
            &&& (released.len() == 1 <==> next.result() is Some)
            &&& next.calls_left() < signing.calls_left()
        }),
{
    broadcast use vstd::seq_lib::group_seq_properties;

    let after = calls::owned_after(signing.owned(), signing.next_call()->0, reply);
    let (next, released) = signing.answer(reply);
    if released.len() > 0 {
        assert(released.to_set().contains(released[0]));
    }
    assert(next.owned() =~= after.difference(released.to_set()));
}

/// Signing fails exactly where a call fails or PSS padding finds no `EVP_PKEY_CTX`.
pub proof fn signing_fails_with_its_first_failed_call(signing: SigningView, reply: Reply)
    requires
        signing.expects(reply),
    ensures
        signing.answer(reply).0.stage is Failed <==> (!calls::succeeded(reply) || (
        signing.encoding.signature_padding == RsaPadding::Pkcs1Pss && (reply matches Reply::SignInit {
            pctx,
            ..
        } && pctx == 0))),
{
}

/// The making of a signature after a series of replies.
pub open spec fn after_replies(signing: SigningView, replies: Seq<Reply>) -> SigningView
    decreases replies.len(),
{
    if replies.len() == 0 {
        signing
    } else {
        after_replies(signing, replies.drop_last()).answer(replies.last()).0
    }
}

/// The objects that are held after a series of replies, counted call by call: the
/// context is held from the start, what a call has made is held, and
/// what a call has taken over or what was released is not held any more.
pub open spec fn held(signing: SigningView, replies: Seq<Reply>) -> Set<Object>
    decreases replies.len(),
{
    if replies.len() == 0 {
        set![Object::DigestContext]
    } else {
        let before = after_replies(signing, replies.drop_last());
        let reply = replies.last();
        calls::owned_after(
            held(signing, replies.drop_last()),
            before.next_call()->0,
            reply,
        ).difference(before.answer(reply).1.to_set())
    }
}

/// A series of replies answers the calls that the making of a signature takes, one after the
/// other, and what a call makes is new.
pub open spec fn plausible(signing: SigningView, replies: Seq<Reply>) -> bool
    decreases replies.len(),
{
    replies.len() == 0 || {
        let before = after_replies(signing, replies.drop_last());
        &&& plausible(signing, replies.drop_last())
        &&& before.expects(replies.last())
        &&& calls::makes_new(
            held(signing, replies.drop_last()),
            before.next_call()->0,
            replies.last(),
        )
    }
}

/// Along a series of replies, every step releases only objects that are held then, once each.
pub open spec fn releases_held(signing: SigningView, replies: Seq<Reply>) -> bool
    decreases replies.len(),
{
    replies.len() == 0 || {
        let before = after_replies(signing, replies.drop_last());
        &&& releases_held(signing, replies.drop_last())
        &&& calls::releases_properly(
            calls::owned_after(
                held(signing, replies.drop_last()),
                before.next_call()->0,
                replies.last(),
            ),
            before.answer(replies.last()).1,
        )
    }
}

/// The making of a signature that `sign` starts.
pub open spec fn signing_start(
    pkey: usize,
    encoding: RsaSignatureEncoding,
    message: Seq<u8>,
    signature_len: usize,
) -> SigningView {
    SigningView { pkey, encoding, message, signature_len, stage: SigningStage::Init }
}

/// Whatever the calls that make a signature reply, the context is held until there is a result,
/// and nothing is held then. On the way only what is held is released, once each. It takes at most
/// four calls. A signature is made only where every call has succeeded.
pub proof fn a_signing_leaks_nothing(
    pkey: usize,
    encoding: RsaSignatureEncoding,
    message: Seq<u8>,
    signature_len: usize,
    replies: Seq<Reply>,
)
    requires
        plausible(signing_start(pkey, encoding, message, signature_len), replies),
    ensures
        ({
            let start = signing_start(pkey, encoding, message, signature_len);
            let end = after_replies(start, replies);
            let objects = held(start, replies);
            &&& objects == end.owned()
            &&& end.result() is Some ==> objects == Set::<Object>::empty()
            &&& end.result() is None ==> objects == set![Object::DigestContext]
            &&& releases_held(start, replies)
            &&& replies.len() + end.calls_left() <= 4
            &&& !(end.stage is Failed) ==> (forall|i: int|
                0 <= i < replies.len() ==> calls::succeeded(#[trigger] replies[i]))
        }),
    decreases replies.len(),
{
    let start = signing_start(pkey, encoding, message, signature_len);
    if replies.len() > 0 {
        let fewer = replies.drop_last();
        a_signing_leaks_nothing(pkey, encoding, message, signature_len, fewer);
        signing_keeps_custody(after_replies(start, fewer), replies.last());
        assert forall|i: int|
            !(after_replies(start, replies).stage is Failed) && 0 <= i
                < replies.len() implies calls::succeeded(#[trigger] replies[i]) by {
            if i < fewer.len() {
                assert(fewer[i] == replies[i]);
            }
        }
    }
}

proof fn one_more_reply(signing: SigningView, replies: Seq<Reply>, reply: Reply)
    ensures
        after_replies(signing, replies.push(reply)) == after_replies(
            signing,
            replies,
        ).answer(reply).0,
{
    assert(replies.push(reply).drop_last() =~= replies);
}

/// Where all calls succeed, a signature is made: in four calls under PSS padding and in three under
/// the other.
pub proof fn a_signing_makes_a_signature(
    pkey: usize,
    encoding: RsaSignatureEncoding,
    message: Seq<u8>,
    signature_len: usize,
    pctx: usize,
    max_len: usize,
    len: usize,
)
    requires
        encoding.signature_padding == RsaPadding::Pkcs1Pss ==> pctx != 0,
    ensures
        ({
            let start = signing_start(pkey, encoding, message, signature_len);
            let replies = if encoding.signature_padding == RsaPadding::Pkcs1Pss {
                seq![
                    Reply::SignInit { status: 1, pctx },
                    Reply::Outcome(true),
                    Reply::Length(Some(max_len)),
                    Reply::Length(Some(len)),
                ]
            } else {
                seq![
                    Reply::SignInit { status: 1, pctx },
                    Reply::Length(Some(max_len)),
                    Reply::Length(Some(len)),
                ]
            };
            after_replies(start, replies).result() == Some(Ok::<(), Unspecified>(()))
        }),
{
    let start = signing_start(pkey, encoding, message, signature_len);
    let r0 = Seq::<Reply>::empty();
    let r1 = r0.push(Reply::SignInit { status: 1, pctx });
    let r2 = if encoding.signature_padding == RsaPadding::Pkcs1Pss {
        r1.push(Reply::Outcome(true))
    } else {
        r1
    };
    let r3 = r2.push(Reply::Length(Some(max_len)));
    let r4 = r3.push(Reply::Length(Some(len)));
    one_more_reply(start, r0, Reply::SignInit { status: 1, pctx });
    one_more_reply(start, r1, Reply::Outcome(true));
    one_more_reply(start, r2, Reply::Length(Some(max_len)));
    one_more_reply(start, r3, Reply::Length(Some(len)));
    assert(after_replies(start, r0) == start);
    if encoding.signature_padding == RsaPadding::Pkcs1Pss {
        assert(r4 =~= seq![
            Reply::SignInit { status: 1, pctx },
            Reply::Outcome(true),
            Reply::Length(Some(max_len)),
            Reply::Length(Some(len)),
        ]);
    } else {
        assert(r4 =~= seq![
            Reply::SignInit { status: 1, pctx },
            Reply::Length(Some(max_len)),
            Reply::Length(Some(len)),
        ]);
    }
}

/// Signing never computes a signature under PSS padding before that padding has been chosen: the
/// length is asked for right after the start only under the other padding.
pub proof fn pss_is_chosen_first(signing: SigningView, reply: Reply)
    requires
        signing.expects(reply),
        signing.stage is Init,
    ensures
        signing.answer(reply).0.stage is Length ==> signing.encoding.signature_padding
            == RsaPadding::Pkcs1,
        signing.answer(reply).0.stage is ConfigurePss ==> signing.encoding.signature_padding
            == RsaPadding::Pkcs1Pss,
{
}

} // verus!
