//! The FHE backend boundary: declarations of the backend's opaque types and
//! trusted wrappers around its entry points, together with the ghost
//! cleartext model that the wrappers maintain.
//!
//! Each ciphertext wrapper type pairs the backend's opaque ciphertext with
//! the ghost cleartext it stands for, and with the ghost identity of the
//! key pair it was produced under. Key generation hands out both key
//! halves under one pair identity; encryption stamps it on the
//! ciphertext; each operation wrapper takes the server key of the
//! operands' own pair and installs it itself, immediately before the
//! operation and on the operating thread, so no stale or foreign
//! evaluation key can ever be in effect; decryption requires the client
//! key of the same pair. The ciphertext types and the wrappers stay
//! crate-private: every ciphertext is created, operated on and decrypted
//! inside one case's run, under that case's own keys.
//!
//! Ghost fields are erased when a wrapper body is compiled; the value a
//! wrapper's ciphertext stands for is given by its `ensures` alone, so the
//! argument of `Ghost::new` in the bodies below carries no meaning.

use vstd::prelude::*;
use tfhe::prelude::FheDecrypt;
use tfhe::prelude::FheEncrypt;

verus! {

#[verifier::external_type_specification]
#[verifier::external_body]
pub struct ExClientKey(tfhe::ClientKey);

#[verifier::external_type_specification]
#[verifier::external_body]
pub struct ExServerKey(tfhe::ServerKey);

#[verifier::external_type_specification]
#[verifier::external_body]
pub struct ExInstant(std::time::Instant);

/// The client half of one generated key pair, with the ghost identity of
/// the pair it belongs to.
pub(crate) struct ClientKeyHandle {
    inner: tfhe::ClientKey,
    pair: Ghost<u64>,
}

impl ClientKeyHandle {
    pub(crate) closed spec fn pair(&self) -> u64 {
        self.pair@
    }
}

/// The server half of one generated key pair, with the ghost identity of
/// the pair it belongs to.
pub(crate) struct ServerKeyHandle {
    inner: tfhe::ServerKey,
    pair: Ghost<u64>,
}

impl ServerKeyHandle {
    pub(crate) closed spec fn pair(&self) -> u64 {
        self.pair@
    }
}

/// Holds the backend's opaque 8-bit ciphertext. The backend's generic
/// ciphertext type cannot be declared to the verifier (the bound on its
/// type parameter is private to the backend crate), so this one-field
/// struct hides it.
#[verifier::external_body]
pub(crate) struct OpaqueCt8 {
    ct: tfhe::FheUint8,
}

/// An 8-bit ciphertext together with the cleartext it encrypts.
pub(crate) struct CtU8 {
    inner: OpaqueCt8,
    plain: Ghost<u8>,
    pair: Ghost<u64>,
}

impl CtU8 {
    pub(crate) closed spec fn plain(&self) -> u8 {
        self.plain@
    }

    pub(crate) closed spec fn pair(&self) -> u64 {
        self.pair@
    }
}

/// Holds the backend's opaque 16-bit ciphertext. The backend's generic
/// ciphertext type cannot be declared to the verifier (the bound on its
/// type parameter is private to the backend crate), so this one-field
/// struct hides it.
#[verifier::external_body]
pub(crate) struct OpaqueCt16 {
    ct: tfhe::FheUint16,
}

/// A 16-bit ciphertext together with the cleartext it encrypts.
pub(crate) struct CtU16 {
    inner: OpaqueCt16,
    plain: Ghost<u16>,
    pair: Ghost<u64>,
}

impl CtU16 {
    pub(crate) closed spec fn plain(&self) -> u16 {
        self.plain@
    }

    pub(crate) closed spec fn pair(&self) -> u64 {
        self.pair@
    }
}

/// Holds the backend's opaque 32-bit ciphertext. The backend's generic
/// ciphertext type cannot be declared to the verifier (the bound on its
/// type parameter is private to the backend crate), so this one-field
/// struct hides it.
#[verifier::external_body]
pub(crate) struct OpaqueCt32 {
    ct: tfhe::FheUint32,
}

/// A 32-bit ciphertext together with the cleartext it encrypts.
pub(crate) struct CtU32 {
    inner: OpaqueCt32,
    plain: Ghost<u32>,
    pair: Ghost<u64>,
}

impl CtU32 {
    pub(crate) closed spec fn plain(&self) -> u32 {
        self.plain@
    }

    pub(crate) closed spec fn pair(&self) -> u64 {
        self.pair@
    }
}

/// Holds the backend's opaque 64-bit ciphertext. The backend's generic
/// ciphertext type cannot be declared to the verifier (the bound on its
/// type parameter is private to the backend crate), so this one-field
/// struct hides it.
#[verifier::external_body]
pub(crate) struct OpaqueCt64 {
    ct: tfhe::FheUint64,
}

/// A 64-bit ciphertext together with the cleartext it encrypts.
pub(crate) struct CtU64 {
    inner: OpaqueCt64,
    plain: Ghost<u64>,
    pair: Ghost<u64>,
}

impl CtU64 {
    pub(crate) closed spec fn plain(&self) -> u64 {
        self.plain@
    }

    pub(crate) closed spec fn pair(&self) -> u64 {
        self.pair@
    }
}

/// Relies on tfhe's ConfigBuilder::default and generate_keys: a fresh
/// client/server key pair under the default configuration, which enables
/// all four unsigned cleartext widths. The keys are random; nothing is
/// stated of them but that the two halves belong to one pair.
#[verifier::external_body]
pub(crate) fn fhe_keygen() -> (r: (ClientKeyHandle, ServerKeyHandle))
    ensures
        r.0.pair() == r.1.pair(),
{
    let config = tfhe::ConfigBuilder::default().build();
    let (ck, sk) = tfhe::generate_keys(config);
    (
        ClientKeyHandle { inner: ck, pair: Ghost::new(0) },
        ServerKeyHandle { inner: sk, pair: Ghost::new(0) },
    )
}

/// Relies on std::time::Instant::now: an opaque reading of the monotonic
/// clock.
#[verifier::external_body]
pub(crate) fn clock_now() -> std::time::Instant {
    std::time::Instant::now()
}

/// Relies on std::time::Instant::elapsed, converted to whole nanoseconds.
/// The value depends on the clock; nothing is stated of it.
#[verifier::external_body]
pub(crate) fn elapsed_ns(start: &std::time::Instant) -> u128 {
    start.elapsed().as_nanos()
}

/// Relies on tfhe's FheUint8::encrypt (FheEncrypt): the ciphertext
/// encrypts exactly the given cleartext under the given client key, and
/// belongs to that key's pair.
#[verifier::external_body]
pub(crate) fn encrypt_u8(x: u8, key: &ClientKeyHandle) -> (r: CtU8)
    ensures
        r.plain() == x,
        r.pair() == key.pair(),
{
    CtU8 {
        inner: OpaqueCt8 { ct: tfhe::FheUint8::encrypt(x, &key.inner) },
        plain: Ghost::new(x),
        pair: Ghost::new(0),
    }
}

/// Relies on tfhe's FheUint8 decryption (FheDecrypt): decrypting with
/// the client key of the pair the ciphertext was produced under recovers
/// its cleartext; the pair identities demand exactly that key.
#[verifier::external_body]
pub(crate) fn decrypt_u8(ct: &CtU8, key: &ClientKeyHandle) -> (r: u8)
    requires
        ct.pair() == key.pair(),
    ensures
        r == ct.plain(),
{
    ct.inner.ct.decrypt(&key.inner)
}

/// Relies on tfhe's set_server_key and Add for FheUint8: with the
/// operands' own server key installed immediately beforehand, on this
/// thread, homomorphic addition is modular in the 8-bit cleartext
/// domain.
#[verifier::external_body]
pub(crate) fn add_u8(a: CtU8, b: CtU8, sk: ServerKeyHandle) -> (r: CtU8)
    requires
        a.pair() == b.pair(),
        a.pair() == sk.pair(),
    ensures
        r.plain() as int == (a.plain() + b.plain()) % 0x100,
        r.pair() == a.pair(),
{
    tfhe::set_server_key(sk.inner);
    CtU8 {
        inner: OpaqueCt8 { ct: a.inner.ct + b.inner.ct },
        plain: Ghost::new(0),
        pair: Ghost::new(0),
    }
}

/// Relies on tfhe's set_server_key and Sub for FheUint8: with the
/// operands' own server key installed immediately beforehand, on this
/// thread, homomorphic subtraction is modular in the 8-bit cleartext
/// domain.
#[verifier::external_body]
pub(crate) fn sub_u8(a: CtU8, b: CtU8, sk: ServerKeyHandle) -> (r: CtU8)
    requires
        a.pair() == b.pair(),
        a.pair() == sk.pair(),
    ensures
        r.plain() as int == (a.plain() - b.plain()) % 0x100,
        r.pair() == a.pair(),
{
    tfhe::set_server_key(sk.inner);
    CtU8 {
        inner: OpaqueCt8 { ct: a.inner.ct - b.inner.ct },
        plain: Ghost::new(0),
        pair: Ghost::new(0),
    }
}

/// Relies on tfhe's set_server_key and Mul for FheUint8: with the
/// operands' own server key installed immediately beforehand, on this
/// thread, homomorphic multiplication is modular in the 8-bit cleartext
/// domain.
#[verifier::external_body]
pub(crate) fn mul_u8(a: CtU8, b: CtU8, sk: ServerKeyHandle) -> (r: CtU8)
    requires
        a.pair() == b.pair(),
        a.pair() == sk.pair(),
    ensures
        r.plain() as int == (a.plain() * b.plain()) % 0x100,
        r.pair() == a.pair(),
{
    tfhe::set_server_key(sk.inner);
    CtU8 {
        inner: OpaqueCt8 { ct: a.inner.ct * b.inner.ct },
        plain: Ghost::new(0),
        pair: Ghost::new(0),
    }
}

/// Relies on tfhe's FheUint16::encrypt (FheEncrypt): the ciphertext
/// encrypts exactly the given cleartext under the given client key, and
/// belongs to that key's pair.
#[verifier::external_body]
pub(crate) fn encrypt_u16(x: u16, key: &ClientKeyHandle) -> (r: CtU16)
    ensures
        r.plain() == x,
        r.pair() == key.pair(),
{
    CtU16 {
        inner: OpaqueCt16 { ct: tfhe::FheUint16::encrypt(x, &key.inner) },
        plain: Ghost::new(x),
        pair: Ghost::new(0),
    }
}

/// Relies on tfhe's FheUint16 decryption (FheDecrypt): decrypting with
/// the client key of the pair the ciphertext was produced under recovers
/// its cleartext; the pair identities demand exactly that key.
#[verifier::external_body]
pub(crate) fn decrypt_u16(ct: &CtU16, key: &ClientKeyHandle) -> (r: u16)
    requires
        ct.pair() == key.pair(),
    ensures
        r == ct.plain(),
{
    ct.inner.ct.decrypt(&key.inner)
}

/// Relies on tfhe's set_server_key and Add for FheUint16: with the
/// operands' own server key installed immediately beforehand, on this
/// thread, homomorphic addition is modular in the 16-bit cleartext
/// domain.
#[verifier::external_body]
pub(crate) fn add_u16(a: CtU16, b: CtU16, sk: ServerKeyHandle) -> (r: CtU16)
    requires
        a.pair() == b.pair(),
        a.pair() == sk.pair(),
    ensures
        r.plain() as int == (a.plain() + b.plain()) % 0x1_0000,
        r.pair() == a.pair(),
{
    tfhe::set_server_key(sk.inner);
    CtU16 {
        inner: OpaqueCt16 { ct: a.inner.ct + b.inner.ct },
        plain: Ghost::new(0),
        pair: Ghost::new(0),
    }
}

/// Relies on tfhe's set_server_key and Sub for FheUint16: with the
/// operands' own server key installed immediately beforehand, on this
/// thread, homomorphic subtraction is modular in the 16-bit cleartext
/// domain.
#[verifier::external_body]
pub(crate) fn sub_u16(a: CtU16, b: CtU16, sk: ServerKeyHandle) -> (r: CtU16)
    requires
        a.pair() == b.pair(),
        a.pair() == sk.pair(),
    ensures
        r.plain() as int == (a.plain() - b.plain()) % 0x1_0000,
        r.pair() == a.pair(),
{
    tfhe::set_server_key(sk.inner);
    CtU16 {
        inner: OpaqueCt16 { ct: a.inner.ct - b.inner.ct },
        plain: Ghost::new(0),
        pair: Ghost::new(0),
    }
}

/// Relies on tfhe's set_server_key and Mul for FheUint16: with the
/// operands' own server key installed immediately beforehand, on this
/// thread, homomorphic multiplication is modular in the 16-bit cleartext
/// domain.
#[verifier::external_body]
pub(crate) fn mul_u16(a: CtU16, b: CtU16, sk: ServerKeyHandle) -> (r: CtU16)
    requires
        a.pair() == b.pair(),
        a.pair() == sk.pair(),
    ensures
        r.plain() as int == (a.plain() * b.plain()) % 0x1_0000,
        r.pair() == a.pair(),
{
    tfhe::set_server_key(sk.inner);
    CtU16 {
        inner: OpaqueCt16 { ct: a.inner.ct * b.inner.ct },
        plain: Ghost::new(0),
        pair: Ghost::new(0),
    }
}

/// Relies on tfhe's FheUint32::encrypt (FheEncrypt): the ciphertext
/// encrypts exactly the given cleartext under the given client key, and
/// belongs to that key's pair.
#[verifier::external_body]
pub(crate) fn encrypt_u32(x: u32, key: &ClientKeyHandle) -> (r: CtU32)
    ensures
        r.plain() == x,
        r.pair() == key.pair(),
{
    CtU32 {
        inner: OpaqueCt32 { ct: tfhe::FheUint32::encrypt(x, &key.inner) },
        plain: Ghost::new(x),
        pair: Ghost::new(0),
    }
}

/// Relies on tfhe's FheUint32 decryption (FheDecrypt): decrypting with
/// the client key of the pair the ciphertext was produced under recovers
/// its cleartext; the pair identities demand exactly that key.
#[verifier::external_body]
pub(crate) fn decrypt_u32(ct: &CtU32, key: &ClientKeyHandle) -> (r: u32)
    requires
        ct.pair() == key.pair(),
    ensures
        r == ct.plain(),
{
    ct.inner.ct.decrypt(&key.inner)
}

/// Relies on tfhe's set_server_key and Add for FheUint32: with the
/// operands' own server key installed immediately beforehand, on this
/// thread, homomorphic addition is modular in the 32-bit cleartext
/// domain.
#[verifier::external_body]
pub(crate) fn add_u32(a: CtU32, b: CtU32, sk: ServerKeyHandle) -> (r: CtU32)
    requires
        a.pair() == b.pair(),
        a.pair() == sk.pair(),
    ensures
        r.plain() as int == (a.plain() + b.plain()) % 0x1_0000_0000,
        r.pair() == a.pair(),
{
    tfhe::set_server_key(sk.inner);
    CtU32 {
        inner: OpaqueCt32 { ct: a.inner.ct + b.inner.ct },
        plain: Ghost::new(0),
        pair: Ghost::new(0),
    }
}

/// Relies on tfhe's set_server_key and Sub for FheUint32: with the
/// operands' own server key installed immediately beforehand, on this
/// thread, homomorphic subtraction is modular in the 32-bit cleartext
/// domain.
#[verifier::external_body]
pub(crate) fn sub_u32(a: CtU32, b: CtU32, sk: ServerKeyHandle) -> (r: CtU32)
    requires
        a.pair() == b.pair(),
        a.pair() == sk.pair(),
    ensures
        r.plain() as int == (a.plain() - b.plain()) % 0x1_0000_0000,
        r.pair() == a.pair(),
{
    tfhe::set_server_key(sk.inner);
    CtU32 {
        inner: OpaqueCt32 { ct: a.inner.ct - b.inner.ct },
        plain: Ghost::new(0),
        pair: Ghost::new(0),
    }
}

/// Relies on tfhe's set_server_key and Mul for FheUint32: with the
/// operands' own server key installed immediately beforehand, on this
/// thread, homomorphic multiplication is modular in the 32-bit cleartext
/// domain.
#[verifier::external_body]
pub(crate) fn mul_u32(a: CtU32, b: CtU32, sk: ServerKeyHandle) -> (r: CtU32)
    requires
        a.pair() == b.pair(),
        a.pair() == sk.pair(),
    ensures
        r.plain() as int == (a.plain() * b.plain()) % 0x1_0000_0000,
        r.pair() == a.pair(),
{
    tfhe::set_server_key(sk.inner);
    CtU32 {
        inner: OpaqueCt32 { ct: a.inner.ct * b.inner.ct },
        plain: Ghost::new(0),
        pair: Ghost::new(0),
    }
}

/// Relies on tfhe's FheUint64::encrypt (FheEncrypt): the ciphertext
/// encrypts exactly the given cleartext under the given client key, and
/// belongs to that key's pair.
#[verifier::external_body]
pub(crate) fn encrypt_u64(x: u64, key: &ClientKeyHandle) -> (r: CtU64)
    ensures
        r.plain() == x,
        r.pair() == key.pair(),
{
    CtU64 {
        inner: OpaqueCt64 { ct: tfhe::FheUint64::encrypt(x, &key.inner) },
        plain: Ghost::new(x),
        pair: Ghost::new(0),
    }
}

/// Relies on tfhe's FheUint64 decryption (FheDecrypt): decrypting with
/// the client key of the pair the ciphertext was produced under recovers
/// its cleartext; the pair identities demand exactly that key.
#[verifier::external_body]
pub(crate) fn decrypt_u64(ct: &CtU64, key: &ClientKeyHandle) -> (r: u64)
    requires
        ct.pair() == key.pair(),
    ensures
        r == ct.plain(),
{
    ct.inner.ct.decrypt(&key.inner)
}

/// Relies on tfhe's set_server_key and Add for FheUint64: with the
/// operands' own server key installed immediately beforehand, on this
/// thread, homomorphic addition is modular in the 64-bit cleartext
/// domain.
#[verifier::external_body]
pub(crate) fn add_u64(a: CtU64, b: CtU64, sk: ServerKeyHandle) -> (r: CtU64)
    requires
        a.pair() == b.pair(),
        a.pair() == sk.pair(),
    ensures
        r.plain() as int == (a.plain() + b.plain()) % 0x1_0000_0000_0000_0000,
        r.pair() == a.pair(),
{
    tfhe::set_server_key(sk.inner);
    CtU64 {
        inner: OpaqueCt64 { ct: a.inner.ct + b.inner.ct },
        plain: Ghost::new(0),
        pair: Ghost::new(0),
    }
}

/// Relies on tfhe's set_server_key and Sub for FheUint64: with the
/// operands' own server key installed immediately beforehand, on this
/// thread, homomorphic subtraction is modular in the 64-bit cleartext
/// domain.
#[verifier::external_body]
pub(crate) fn sub_u64(a: CtU64, b: CtU64, sk: ServerKeyHandle) -> (r: CtU64)
    requires
        a.pair() == b.pair(),
        a.pair() == sk.pair(),
    ensures
        r.plain() as int == (a.plain() - b.plain()) % 0x1_0000_0000_0000_0000,
        r.pair() == a.pair(),
{
    tfhe::set_server_key(sk.inner);
    CtU64 {
        inner: OpaqueCt64 { ct: a.inner.ct - b.inner.ct },
        plain: Ghost::new(0),
        pair: Ghost::new(0),
    }
}

/// Relies on tfhe's set_server_key and Mul for FheUint64: with the
/// operands' own server key installed immediately beforehand, on this
/// thread, homomorphic multiplication is modular in the 64-bit cleartext
/// domain.
#[verifier::external_body]
pub(crate) fn mul_u64(a: CtU64, b: CtU64, sk: ServerKeyHandle) -> (r: CtU64)
    requires
        a.pair() == b.pair(),
        a.pair() == sk.pair(),
    ensures
        r.plain() as int == (a.plain() * b.plain()) % 0x1_0000_0000_0000_0000,
        r.pair() == a.pair(),
{
    tfhe::set_server_key(sk.inner);
    CtU64 {
        inner: OpaqueCt64 { ct: a.inner.ct * b.inner.ct },
        plain: Ghost::new(0),
        pair: Ghost::new(0),
    }
}

} // verus!
