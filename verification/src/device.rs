//! How this helper presents itself to the server: the settings of the clients
//! it builds, its device identifier, and the random texts it makes.

use vstd::prelude::*;
use vstd::string::*;

use crate::text;

verus! {

/// The device types this helper reports.
#[derive(Clone, Copy, Debug, PartialEq, Eq, Structural)]
pub enum DeviceType {
    MacOsCLI,
}

/// The settings of an SDK client.
#[derive(Clone, Debug)]
pub struct Settings {
    pub identity_url: String,
    pub api_url: String,
    pub user_agent: String,
    pub device_type: DeviceType,
    pub device_identifier: String,
    pub client_version: String,
    pub package_type: String,
}

/// The mathematical value of a `Settings`.
pub struct SettingsView {
    pub identity_url: Seq<char>,
    pub api_url: Seq<char>,
    pub user_agent: Seq<char>,
    pub device_type: DeviceType,
    pub device_identifier: Seq<char>,
    pub client_version: Seq<char>,
    pub package_type: Seq<char>,
}

impl View for Settings {
    type V = SettingsView;

    open spec fn view(&self) -> SettingsView {
        SettingsView {
            identity_url: self.identity_url@,
            api_url: self.api_url@,
            user_agent: self.user_agent@,
            device_type: self.device_type,
            device_identifier: self.device_identifier@,
            client_version: self.client_version@,
            package_type: self.package_type@,
        }
    }
}

/// `bitwarden_core::ClientSettings::default`, reduced to its two server URLs,
/// identity first. They are those of the US cloud.
#[verifier::external_body]
fn default_urls() -> (r: (String, String))
    ensures
        r.0@ == "https://identity.bitwarden.com"@,
        r.1@ == "https://api.bitwarden.com"@,
{
    let settings = bitwarden_core::ClientSettings::default();
    (settings.identity_url, settings.api_url)
}

/// The non-empty override, else the default.
pub open spec fn overridden(url: Option<Seq<char>>, default: Seq<char>) -> Seq<char> {
    match text::non_empty(url) {
        Some(url) => url,
        None => default,
    }
}

/// The settings of a helper of version `version`.
pub open spec fn settings_for(
    version: Seq<char>,
    device_identifier: Seq<char>,
    identity_url: Option<Seq<char>>,
    api_url: Option<Seq<char>>,
) -> SettingsView {
    SettingsView {
        identity_url: overridden(identity_url, "https://identity.bitwarden.com"@),
        api_url: overridden(api_url, "https://api.bitwarden.com"@),
        user_agent: "PhiBitwardenHelper/"@ + version,
        device_type: DeviceType::MacOsCLI,
        device_identifier,
        client_version: "2026.6.0"@,
        package_type: "cli"@,
    }
}

/// Settings for every SDK client the engine builds. `version` is the helper's
/// own; the client version is the one reported in the `Bitwarden-Client-Version`
/// header, which the server holds against the account's minimum supported
/// client, so it tracks a current official client release. The URLs override
/// the server for EU-cloud or self-hosted logins; empty or none keeps the
/// default US cloud.
pub fn client_settings(
    version: &str,
    device_identifier: &str,
    identity_url: Option<&str>,
    api_url: Option<&str>,
) -> (r: Settings)
    ensures
        r@ == settings_for(
            version@,
            device_identifier@,
            text::opt_str_view(identity_url),
            text::opt_str_view(api_url),
        ),
{
    let (default_identity_url, default_api_url) = default_urls();
    Settings {
        identity_url: match text::owned_non_empty(identity_url) {
            Some(url) => url,
            None => default_identity_url,
        },
        api_url: match text::owned_non_empty(api_url) {
            Some(url) => url,
            None => default_api_url,
        },
        user_agent: "PhiBitwardenHelper/".to_owned().concat(version),
        device_type: DeviceType::MacOsCLI,
        device_identifier: device_identifier.to_owned(),
        client_version: "2026.6.0".to_owned(),
        package_type: "cli".to_owned(),
    }
}

/// The folder the device identifier lives in.
pub open spec fn data_dir_view(named: Option<Seq<char>>, home: Option<Seq<char>>) -> Seq<char> {
    match text::non_empty(named) {
        Some(dir) => dir,
        None => (match home {
            Some(home) => home,
            None => "/tmp"@,
        }) + "/Library/Application Support/PhiBitwardenHelper"@,
    }
}

/// The folder the device identifier lives in: the browser's own data folder
/// where the app names one, so that the helper does not own a folder of its own,
/// else a helper-named folder under the user's home.
pub fn data_dir(named: Option<&str>, home: Option<&str>) -> (r: String)
    ensures
        r@ == data_dir_view(text::opt_str_view(named), text::opt_str_view(home)),
{
    match text::owned_non_empty(named) {
        Some(dir) => dir,
        None => match home {
            Some(home) => home.to_owned().concat("/Library/Application Support/PhiBitwardenHelper"),
            None => "/tmp".to_owned().concat("/Library/Application Support/PhiBitwardenHelper"),
        },
    }
}

/// The file the device identifier lives in.
pub fn device_id_path(dir: &str) -> (r: String)
    ensures
        r@ == dir@ + "/bitwarden-device-id"@,
{
    dir.to_owned().concat("/bitwarden-device-id")
}

/// The identifier in the contents of a file, where there is one.
pub open spec fn stored_view(contents: Option<Seq<char>>) -> Option<Seq<char>> {
    match contents {
        Some(s) => text::non_empty(Some(text::trimmed(s))),
        None => None,
    }
}

/// The device identifier that was read from its file, or None where the file
/// is missing or blank and a new identifier is due.
pub fn stored_device_id(contents: Option<&str>) -> (r: Option<String>)
    ensures
        text::opt_view(r) == stored_view(text::opt_str_view(contents)),
{
    match contents {
        Some(s) => text::owned_non_empty(Some(text::trim(s))),
        None => None,
    }
}

/// The lowercase hexadecimal digit of a number below sixteen.
pub open spec fn hex_digit(n: int) -> char {
    "0123456789abcdef"@[n]
}

/// Two lowercase hexadecimal digits for each byte, high digit first.
pub open spec fn hex_view(bytes: Seq<u8>) -> Seq<char> {
    Seq::new(
        2 * bytes.len(),
        |i: int|
            if i % 2 == 0 {
                hex_digit(bytes[i / 2] as int / 16)
            } else {
                hex_digit(bytes[i / 2] as int % 16)
            },
    )
}

/// Appends the two hexadecimal digits of a byte.
fn append_hex(out: &mut String, byte: u8)
    ensures
        final(out)@ == old(out)@.push(hex_digit(byte as int / 16)).push(
            hex_digit(byte as int % 16),
        ),
{
    proof {
        reveal_strlit("0123456789abcdef");
    }
    let digits: &str = "0123456789abcdef";
    let high: usize = (byte / 16) as usize;
    let low: usize = (byte % 16) as usize;
    out.append(digits.substring_char(high, high + 1));
    out.append(digits.substring_char(low, low + 1));
    assert(out@ =~= old(out)@.push(hex_digit(byte as int / 16)).push(hex_digit(byte as int % 16)));
}

/// The bytes in lowercase hexadecimal.
pub fn hex(bytes: &[u8]) -> (r: String)
    ensures
        r@ == hex_view(bytes@),
{
    let mut r: String = String::new();
    let mut i: usize = 0;
    while i < bytes.len()
        invariant
            i <= bytes@.len(),
            r@ == hex_view(bytes@.take(i as int)),
        decreases bytes@.len() - i,
    {
        append_hex(&mut r, bytes[i]);
        i = i + 1;
        assert(r@ =~= hex_view(bytes@.take(i as int)));
    }
    assert(bytes@.take(i as int) =~= bytes@);
    r
}

/// The bytes with the version and the variant of a random UUID in place: the
/// high half of the seventh byte is 4, the two high bits of the ninth are 10.
pub open spec fn stamped(bytes: Seq<u8>) -> Seq<u8> {
    bytes.update(6, (0x40 + bytes[6] % 16) as u8).update(8, (0x80 + bytes[8] % 64) as u8)
}

/// The five groups of a UUID's digits, set apart by dashes.
pub open spec fn grouped(digits: Seq<char>) -> Seq<char> {
    digits.subrange(0, 8) + seq!['-'] + digits.subrange(8, 12) + seq!['-'] + digits.subrange(12, 16)
        + seq!['-'] + digits.subrange(16, 20) + seq!['-'] + digits.subrange(20, 32)
}

/// The version 4 UUID that sixteen random bytes make.
pub fn uuid_v4(random: [u8; 16]) -> (r: String)
    ensures
        r@ == grouped(hex_view(stamped(random@))),
{
    let mut bytes: [u8; 16] = random;
    let version: u8 = bytes[6];
    let variant: u8 = bytes[8];
    assert((version & 0x0f) | 0x40 == 0x40 + version % 16) by (bit_vector);
    assert((variant & 0x3f) | 0x80 == 0x80 + variant % 64) by (bit_vector);
    bytes[6] = (version & 0x0f) | 0x40;
    bytes[8] = (variant & 0x3f) | 0x80;
    assert(bytes@ =~= stamped(random@));
    let all: String = hex(&bytes);
    let digits: &str = all.as_str();
    let mut r: String = digits.substring_char(0, 8).to_owned();
    r.append("-");
    r.append(digits.substring_char(8, 12));
    r.append("-");
    r.append(digits.substring_char(12, 16));
    r.append("-");
    r.append(digits.substring_char(16, 20));
    r.append("-");
    r.append(digits.substring_char(20, 32));
    proof {
        reveal_strlit("-");
        assert("-"@ =~= seq!['-']);
    }
    r
}

/// Every UUID made here is thirty-six characters long, with dashes where a UUID
/// has them, the digit of version 4, and a digit of the RFC 4122 variant.
pub proof fn uuids_are_of_version_four(random: Seq<u8>)
    requires
        random.len() == 16,
    ensures
        ({
            let id = grouped(hex_view(stamped(random)));
            &&& id.len() == 36
            &&& id[8] == '-' && id[13] == '-' && id[18] == '-' && id[23] == '-'
            &&& id[14] == '4'
            &&& id[19] == '8' || id[19] == '9' || id[19] == 'a' || id[19] == 'b'
        }),
{
    reveal_strlit("0123456789abcdef");
    let digits = hex_view(stamped(random));
    let id = grouped(digits);
    assert(id[14] == digits[12]);
    assert(digits[12] == hex_digit(stamped(random)[6] as int / 16));
    assert(id[19] == digits[16]);
    assert(digits[16] == hex_digit(stamped(random)[8] as int / 16));
}

/// An identifier that was written to its file is read back from it as it is, so
/// the device stays the same from one start to the next.
pub proof fn identifiers_are_read_back(random: Seq<u8>)
    requires
        random.len() == 16,
    ensures
        ({
            let id = grouped(hex_view(stamped(random)));
            stored_view(Some(id)) == Some(id)
        }),
{
    reveal_strlit("0123456789abcdef");
    let digits = hex_view(stamped(random));
    let id = grouped(digits);
    assert(id[0] == digits[0]);
    assert(digits[0] == hex_digit(stamped(random)[0] as int / 16));
    assert(id.last() == digits[31]);
    assert(digits[31] == hex_digit(stamped(random)[15] as int % 16));
    lemma_digits_are_no_space(stamped(random)[0] as int / 16);
    lemma_digits_are_no_space(stamped(random)[15] as int % 16);
}

proof fn lemma_digits_are_no_space(n: int)
    requires
        0 <= n < 16,
    ensures
        !text::is_space(hex_digit(n)),
{
    reveal_strlit("0123456789abcdef");
    let c = hex_digit(n);
    assert('0' <= c <= '9' || 'a' <= c <= 'f');
}

/// A server that is named is the one that is turned to, each for itself; one that
/// is not, or is blank, is that of the US cloud. The device is reported under its
/// own identifier.
pub proof fn named_servers_are_turned_to(
    version: Seq<char>,
    id: Seq<char>,
    identity_url: Seq<char>,
    api_url: Seq<char>,
    other: Option<Seq<char>>,
)
    requires
        identity_url.len() > 0,
        api_url.len() > 0,
    ensures
        settings_for(version, id, Some(identity_url), other).identity_url == identity_url,
        settings_for(version, id, other, Some(api_url)).api_url == api_url,
        settings_for(version, id, None, other).identity_url == "https://identity.bitwarden.com"@,
        settings_for(version, id, other, None).api_url == "https://api.bitwarden.com"@,
        settings_for(version, id, Some(Seq::empty()), other) == settings_for(
            version,
            id,
            None,
            other,
        ),
        settings_for(version, id, other, Some(Seq::empty())) == settings_for(
            version,
            id,
            other,
            None,
        ),
        settings_for(version, id, other, other).device_identifier == id,
        settings_for(version, id, other, other).user_agent == "PhiBitwardenHelper/"@ + version,
{
}

/// The folder that the app names is the one used; without one, that of the
/// helper under the user's home, or under `/tmp` where there is none.
pub proof fn the_named_folder_is_used(named: Seq<char>, home: Seq<char>, other: Option<Seq<char>>)
    requires
        named.len() > 0,
    ensures
        data_dir_view(Some(named), other) == named,
        data_dir_view(None, Some(home)) == home
            + "/Library/Application Support/PhiBitwardenHelper"@,
        data_dir_view(None, None) == data_dir_view(None, Some("/tmp"@)),
        data_dir_view(Some(Seq::empty()), other) == data_dir_view(None, other),
{
}

/// An identifier is read off its file without the white space around it; a blank
/// or missing file has none.
pub proof fn stored_identifiers_are_trimmed(before: Seq<char>, id: Seq<char>, after: Seq<char>)
    requires
        text::is_blank(before) && text::is_blank(after),
        id.len() > 0,
        !text::is_space(id[0]) && !text::is_space(id.last()),
    ensures
        stored_view(Some(before + id + after)) == Some(id),
        stored_view(Some(before)) is None,
        stored_view(None) is None,
{
    text::trimming_takes_the_blanks_around(before, id, after);
    let none = Seq::<char>::empty();
    text::trimming_takes_the_blanks_around(before, none, none);
    assert(before + none + none =~= before);
}

/// Different bytes have different hexadecimal texts, and each byte has two digits.
pub proof fn hexadecimal_tells_bytes_apart(a: Seq<u8>, b: Seq<u8>)
    requires
        hex_view(a) == hex_view(b),
    ensures
        a == b,
        hex_view(a).len() == 2 * a.len(),
{
    reveal_strlit("0123456789abcdef");
    assert(hex_view(a).len() == 2 * a.len());
    assert(hex_view(b).len() == 2 * b.len());
    assert forall|i: int| 0 <= i < a.len() implies a[i] == b[i] by {
        assert(hex_view(a)[2 * i] == hex_digit(a[i] as int / 16));
        assert(hex_view(b)[2 * i] == hex_digit(b[i] as int / 16));
        assert(hex_view(a)[2 * i + 1] == hex_digit(a[i] as int % 16));
        assert(hex_view(b)[2 * i + 1] == hex_digit(b[i] as int % 16));
        lemma_digits_differ(a[i] as int / 16, b[i] as int / 16);
        lemma_digits_differ(a[i] as int % 16, b[i] as int % 16);
    }
    assert(a =~= b);
}

proof fn lemma_digits_differ(m: int, n: int)
    requires
        0 <= m < 16,
        0 <= n < 16,
        hex_digit(m) == hex_digit(n),
    ensures
        m == n,
{
    reveal_strlit("0123456789abcdef");
}

/// Settings are made of what they are made with, each part in its place.
pub proof fn settings_are_made_of_their_parts(
    version: &str,
    id: &str,
    identity_url: &str,
    api_url: &str,
    r: Settings,
)
    requires
        identity_url@.len() > 0,
        api_url@.len() > 0,
        call_ensures(client_settings, (version, id, Some(identity_url), Some(api_url)), r),
    ensures
        r.identity_url@ == identity_url@,
        r.api_url@ == api_url@,
        r.device_identifier@ == id@,
        r.user_agent@ == "PhiBitwardenHelper/"@ + version@,
{
}

} // verus!
