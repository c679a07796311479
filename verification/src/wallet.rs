//! The page of a wallet address: the `monero:` payment URI and its QR code,
//! drawn as SVG and encoded in base64 for embedding.

use vstd::prelude::*;
use vstd::utf8::encode_utf8;

use crate::rpc::opt_view;

verus! {

/// How much of a QR code may be damaged and still be read.
#[derive(Debug, Clone, Copy, PartialEq, Eq, Hash)]
pub enum ErrorCorrection {
    /// About 7% of the codewords.
    Low,
    /// About 15%.
    Medium,
    /// About 25%.
    Quartile,
    /// About 30%.
    High,
}

/// Why a wallet address could not be drawn as a QR code.
#[derive(Debug, Clone, Copy, PartialEq, Eq, Hash)]
pub enum QrCodeFailure {
    /// The QR code library refused the data or the image size.
    Unrenderable,
}

#[verifier::external_type_specification]
#[verifier::external_body]
pub struct ExQRCodeError(qrcode_generator::QRCodeError);

/// The SVG document that `qrcode_generator::to_svg_to_string` draws for the UTF-8
/// bytes of `data`, or `None` where it reports an error.
pub uninterp spec fn qr_svg(
    data: Seq<char>,
    ecc: ErrorCorrection,
    size: usize,
    description: Option<Seq<char>>,
) -> Option<Seq<char>>;

/// The character of the standard base64 alphabet (`A`-`Z`, `a`-`z`, `0`-`9`, `+`, `/`)
/// for the six bits `v`.
pub open spec fn base64_digit(v: int) -> char {
    if v < 26 {
        (65 + v) as char
    } else if v < 52 {
        (97 + v - 26) as char
    } else if v < 62 {
        (48 + v - 52) as char
    } else if v == 62 {
        '+'
    } else {
        '/'
    }
}

/// The standard base64 encoding of the bytes `b` (RFC 4648, section 4): each group of
/// three bytes becomes four characters, and a last group of one or two bytes is
/// padded with `=` to four.
pub open spec fn base64_standard_bytes(b: Seq<u8>) -> Seq<char>
    decreases b.len(),
{
    if b.len() == 0 {
        Seq::empty()
    } else if b.len() == 1 {
        let n = b[0] * 65536;
        seq![base64_digit(n / 262144), base64_digit((n / 4096) % 64), '=', '=']
    } else if b.len() == 2 {
        let n = b[0] * 65536 + b[1] * 256;
        seq![
            base64_digit(n / 262144),
            base64_digit((n / 4096) % 64),
            base64_digit((n / 64) % 64),
            '=',
        ]
    } else {
        let n = b[0] * 65536 + b[1] * 256 + b[2];
        seq![
            base64_digit(n / 262144),
            base64_digit((n / 4096) % 64),
            base64_digit((n / 64) % 64),
            base64_digit(n % 64),
        ] + base64_standard_bytes(b.skip(3))
    }
}

/// The standard base64 encoding of the UTF-8 bytes of `text`.
pub open spec fn base64_standard(text: Seq<char>) -> Seq<char> {
    base64_standard_bytes(encode_utf8(text))
}

/// Every three bytes become four characters, and a last one or two bytes become
/// four characters with padding: the encoding is `4 * ceil(n / 3)` characters long.
pub proof fn lemma_base64_length(b: Seq<u8>)
    ensures
        base64_standard_bytes(b).len() == 4 * ((b.len() + 2) / 3),
    decreases b.len(),
{
    if b.len() >= 3 {
        lemma_base64_length(b.skip(3));
    }
}

/// Encoding works group by group: the encoding of `a` followed by `b`, where `a`
/// is a whole number of three-byte groups, is the encoding of `a` followed by the
/// encoding of `b`.
pub proof fn lemma_base64_concat(a: Seq<u8>, b: Seq<u8>)
    requires
        a.len() % 3 == 0,
    ensures
        base64_standard_bytes(a + b) == base64_standard_bytes(a) + base64_standard_bytes(b),
    decreases a.len(),
{
    if a.len() == 0 {
        assert(a + b =~= b);
        assert(base64_standard_bytes(a) + base64_standard_bytes(b) =~= base64_standard_bytes(b));
    } else {
        let ab = a + b;
        assert(ab[0] == a[0] && ab[1] == a[1] && ab[2] == a[2]);
        assert(ab.skip(3) =~= a.skip(3) + b);
        lemma_base64_concat(a.skip(3), b);
        let n = a[0] * 65536 + a[1] * 256 + a[2];
        let head = seq![
            base64_digit(n / 262144),
            base64_digit((n / 4096) % 64),
            base64_digit((n / 64) % 64),
            base64_digit(n % 64),
        ];
        assert(base64_standard_bytes(ab) == head + base64_standard_bytes(ab.skip(3)));
        assert(base64_standard_bytes(a) == head + base64_standard_bytes(a.skip(3)));
        assert(base64_standard_bytes(ab) =~= base64_standard_bytes(a) + base64_standard_bytes(b));
    }
}

/// The view of an optional string slice.
pub open spec fn opt_str_view(o: Option<&str>) -> Option<Seq<char>> {
    match o {
        Some(s) => Some(s@),
        None => None,
    }
}

/// Calls `qrcode_generator::to_svg_to_string`, which encodes the bytes of `data`
/// as a QR code and draws it as an SVG image `size` pixels wide. What it claims:
/// the result is a function of the arguments alone, named `qr_svg`, and an error
/// comes exactly where that name gives `None`. It also claims success at low error
/// correction for text of at most 738 code points (the bound `QrCode::encode_text`
/// documents) drawn at least 179 pixels wide (the largest code with its margin
/// then gets a pixel per module). Beyond that bound, which inputs are too long is
/// not stated.
#[verifier::external_body]
fn qr_svg_to_string(
    data: &str,
    ecc: ErrorCorrection,
    size: usize,
    description: Option<&str>,
) -> (r: Result<String, qrcode_generator::QRCodeError>)
    ensures
        match r {
            Ok(svg) => qr_svg(data@, ecc, size, opt_str_view(description)) == Some(svg@),
            Err(_) => qr_svg(data@, ecc, size, opt_str_view(description)) is None,
        },
        ecc == ErrorCorrection::Low && data@.len() <= 738 && size >= 179 ==> r is Ok,
{
    let level = match ecc {
        ErrorCorrection::Low => qrcode_generator::QrCodeEcc::Low,
        ErrorCorrection::Medium => qrcode_generator::QrCodeEcc::Medium,
        ErrorCorrection::Quartile => qrcode_generator::QrCodeEcc::Quartile,
        ErrorCorrection::High => qrcode_generator::QrCodeEcc::High,
    };
    qrcode_generator::to_svg_to_string(data, level, size, description)
}

/// Calls `base64::encode` on the UTF-8 bytes of `text`. What it claims: the
/// result is the standard base64 encoding with padding (the `STANDARD` configuration
/// that `encode` uses), `base64_standard`. The call panics
/// only where the encoded length overflows `usize`, which no string can reach.
#[verifier::external_body]
fn base64_encode(text: &str) -> (r: String)
    ensures
        r@ == base64_standard(text@),
{
    base64::encode(text)
}

/// The value of an optional query parameter as it stands in the URI: empty when absent.
pub open spec fn or_empty(o: Option<String>) -> Seq<char> {
    match opt_view(o) {
        Some(s) => s,
        None => Seq::empty(),
    }
}

/// The payment URI of `wallet_address` with its four query parameters.
pub open spec fn spec_wallet_address_uri(
    wallet_address: Seq<char>,
    tx_amount: Option<String>,
    tx_description: Option<String>,
    recipient_name: Option<String>,
    tx_payment_id: Option<String>,
) -> Seq<char> {
    "monero:"@ + wallet_address + "&tx_amount="@ + or_empty(tx_amount) + "&tx_description="@
        + or_empty(tx_description) + "&recipient_name="@ + or_empty(recipient_name)
        + "&tx_payment_id="@ + or_empty(tx_payment_id)
}

fn append_param(uri: &mut String, key: &str, value: Option<String>)
    ensures
        final(uri)@ == old(uri)@ + key@ + or_empty(value),
{
    uri.append(key);
    match value {
        Some(v) => uri.append(v.as_str()),
        None => {},
    }
}

/// The `monero:` payment URI of `wallet_address`; an absent parameter stands empty.
pub fn wallet_address_uri(
    wallet_address: &str,
    tx_amount: Option<String>,
    tx_description: Option<String>,
    recipient_name: Option<String>,
    tx_payment_id: Option<String>,
) -> (uri: String)
    ensures
        uri@ == spec_wallet_address_uri(
            wallet_address@,
            tx_amount,
            tx_description,
            recipient_name,
            tx_payment_id,
        ),
        uri@ == "monero:"@ + wallet_address@ + "&tx_amount="@ + (match tx_amount {
            Some(s) => s@,
            None => Seq::<char>::empty(),
        }) + "&tx_description="@ + (match tx_description {
            Some(s) => s@,
            None => Seq::<char>::empty(),
        }) + "&recipient_name="@ + (match recipient_name {
            Some(s) => s@,
            None => Seq::<char>::empty(),
        }) + "&tx_payment_id="@ + (match tx_payment_id {
            Some(s) => s@,
            None => Seq::<char>::empty(),
        }),
        uri@.subrange(0, 7) == "monero:"@,
        uri@.subrange(7, 7int + wallet_address@.len()) == wallet_address@,
{
    let mut uri = String::from_str("monero:");
    uri.append(wallet_address);
    append_param(&mut uri, "&tx_amount=", tx_amount);
    append_param(&mut uri, "&tx_description=", tx_description);
    append_param(&mut uri, "&recipient_name=", recipient_name);
    append_param(&mut uri, "&tx_payment_id=", tx_payment_id);
    proof {
        lemma_wallet_address_uri_keeps_address(
            wallet_address@,
            tx_amount,
            tx_description,
            recipient_name,
            tx_payment_id,
        );
    }
    uri
}

/// A missing parameter stands as nothing; a given one stands as its whole text.
pub proof fn lemma_or_empty(o: Option<String>)
    ensures
        o is None ==> or_empty(o) == Seq::<char>::empty(),
        o matches Some(s) ==> or_empty(o) == s@,
{
}

/// Whatever the address and the parameters, the payment URI starts with
/// `monero:` followed by the whole address, unshortened, then `&tx_amount=`; and
/// with no parameters it is exactly the address between `monero:` and the four
/// empty parameters.
pub proof fn lemma_wallet_address_uri_keeps_address(
    wallet_address: Seq<char>,
    tx_amount: Option<String>,
    tx_description: Option<String>,
    recipient_name: Option<String>,
    tx_payment_id: Option<String>,
)
    ensures
        ({
            let uri = spec_wallet_address_uri(
                wallet_address,
                tx_amount,
                tx_description,
                recipient_name,
                tx_payment_id,
            );
            &&& uri.len() >= 7int + wallet_address.len() + 11
            &&& uri.subrange(0, 7) == "monero:"@
            &&& uri.subrange(7, 7int + wallet_address.len()) == wallet_address
            &&& uri.subrange(7int + wallet_address.len(), 7int + wallet_address.len() + 11)
                == "&tx_amount="@
        }),
        spec_wallet_address_uri(wallet_address, None, None, None, None) == "monero:"@
            + wallet_address + "&tx_amount=&tx_description=&recipient_name=&tx_payment_id="@,
{
    reveal_strlit("monero:");
    reveal_strlit("&tx_amount=");
    reveal_strlit("&tx_description=");
    reveal_strlit("&recipient_name=");
    reveal_strlit("&tx_payment_id=");
    reveal_strlit("&tx_amount=&tx_description=&recipient_name=&tx_payment_id=");
    let n: int = wallet_address.len() as int;
    let rest = or_empty(tx_amount) + "&tx_description="@ + or_empty(tx_description)
        + "&recipient_name="@ + or_empty(recipient_name) + "&tx_payment_id="@ + or_empty(
        tx_payment_id,
    );
    let uri = spec_wallet_address_uri(
        wallet_address,
        tx_amount,
        tx_description,
        recipient_name,
        tx_payment_id,
    );
    assert(uri =~= "monero:"@ + wallet_address + "&tx_amount="@ + rest);
    assert(uri.subrange(0, 7) =~= "monero:"@);
    assert(uri.subrange(7, 7 + n) =~= wallet_address);
    assert(uri.subrange(7 + n, 7 + n + 11) =~= "&tx_amount="@);
    assert(spec_wallet_address_uri(wallet_address, None, None, None, None) =~= "monero:"@
        + wallet_address + "&tx_amount=&tx_description=&recipient_name=&tx_payment_id="@);
}

/// The QR code's error correction on the wallet page.
pub const WALLET_QR_ECC: ErrorCorrection = ErrorCorrection::Low;

/// The width in pixels of the QR code on the wallet page.
pub const WALLET_QR_SIZE: usize = 256;

/// An SVG image encoded in base64, as the page embeds it.
pub fn encode_qr_svg(svg: &str) -> (encoded: String)
    ensures
        encoded@ == base64_standard(svg@),
{
    base64_encode(svg)
}

/// The base64-encoded SVG QR code of `address_uri` on the wallet page: low error
/// correction, 256 pixels wide, with the library's default description. The QR
/// library must be able to draw `address_uri`; see `try_wallet_qr_code` for a call
/// that reports where it cannot.
pub fn wallet_qr_code(address_uri: &str) -> (encoded: String)
    requires
        qr_svg(address_uri@, ErrorCorrection::Low, 256, None) is Some,
    ensures
        encoded@ == base64_standard(qr_svg(address_uri@, ErrorCorrection::Low, 256, None).unwrap()),
{
    match qr_svg_to_string(address_uri, WALLET_QR_ECC, WALLET_QR_SIZE, None) {
        Ok(svg) => encode_qr_svg(svg.as_str()),
        Err(_) => {
            proof {
                assert(false);
            }
            String::new()
        },
    }
}

/// The QR code of `address_uri` on the wallet page, as `wallet_qr_code` gives it,
/// or `Unrenderable` where the QR library cannot draw it: it asks the library
/// first, and draws the code only where the library can. A URI of at most 738
/// code points always gets its code.
pub fn try_wallet_qr_code(address_uri: &str) -> (r: Result<String, QrCodeFailure>)
    ensures
        match qr_svg(address_uri@, ErrorCorrection::Low, 256, None) {
            Some(svg) => r matches Ok(encoded) && encoded@ == base64_standard(svg),
            None => r == Err::<String, QrCodeFailure>(QrCodeFailure::Unrenderable),
        },
        address_uri@.len() <= 738 ==> r is Ok,
{
    match qr_svg_to_string(address_uri, WALLET_QR_ECC, WALLET_QR_SIZE, None) {
        Ok(_) => Ok(wallet_qr_code(address_uri)),
        Err(_) => Err(QrCodeFailure::Unrenderable),
    }
}

} // verus!
