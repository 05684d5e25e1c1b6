//! Accounts: the colour tag of a user, login, and password change.
use vstd::prelude::*;
use crate::models::{ChangePasswordPayload, LoginPayload, LoginResponse};
use crate::password::{
    bcrypt_hash, bcrypt_verdict, check_password, default_cost_hash_form, password_accepted,
};
use crate::reply::{is_reply, reply, TextReply, INTERNAL_SERVER_ERROR, NOT_FOUND, OK, UNAUTHORIZED};
use crate::text::{
    chars_of, first_word, first_word_of, is_white_space, lemma_first_word_is_a_word,
    lemma_word_is_its_own_first_word, push_char, trim, trimmed,
};
use bcrypt::BcryptError;

verus! {

// --- The colour tag of a user ---

/// The name a tag is made from: the first word of the user's name, or `X`
/// when the name holds no word.
pub open spec fn tag_name_of(name: Seq<char>) -> Seq<char> {
    match first_word(name) {
        Some(w) => w,
        None => "X"@,
    }
}

/// One step of the name's fingerprint: the character `c` at position `i`
/// (counted from 0) adds `37 * (code of c * (i + 1) mod 2^32)` to `h`,
/// modulo 2^32. `None` where that step overflows: when `i + 1` does not
/// fit in a `u32`, or when the product by 37 does not.
pub open spec fn fingerprint_step(h: u32, c: char, i: int) -> Option<u32> {
    if i + 1 > u32::MAX {
        None
    } else {
        let scaled: int = ((c as u32) as int * (i + 1)) % 0x1_0000_0000;
        if scaled * 37 > u32::MAX {
            None
        } else {
            Some(((h as int + scaled * 37) % 0x1_0000_0000) as u32)
        }
    }
}

/// The fingerprint of the first `n` characters of `s`, from 0; `None` once
/// a step has overflowed.
pub open spec fn fingerprint_prefix(s: Seq<char>, n: int) -> Option<u32>
    decreases n,
{
    if n <= 0 {
        Some(0u32)
    } else {
        match fingerprint_prefix(s, n - 1) {
            Some(h) => fingerprint_step(h, s[n - 1], n - 1),
            None => None,
        }
    }
}

/// The fingerprint of a whole name.
pub open spec fn fingerprint(s: Seq<char>) -> Option<u32> {
    fingerprint_prefix(s, s.len() as int)
}

/// The hue (in degrees, below 360) of the tag of a user called `name`.
pub open spec fn tag_hue_of(name: Seq<char>) -> Option<u32> {
    match fingerprint(tag_name_of(name)) {
        Some(h) => Some(h % 360),
        None => None,
    }
}

/// An upper-case hexadecimal digit.
pub open spec fn hex_digit(n: u8) -> char {
    if n < 10 {
        ((n + 48) as u8) as char
    } else {
        ((n + 55) as u8) as char
    }
}

/// The value of an upper-case hexadecimal digit (`0`-`9`, `A`-`F`).
pub open spec fn hex_value(c: char) -> int {
    if '0' <= c <= '9' {
        c as int - '0' as int
    } else {
        c as int - 'A' as int + 10
    }
}

/// The sixteen upper-case hexadecimal digits, in order.
pub open spec fn hex_digits() -> Seq<char> {
    "0123456789ABCDEF"@
}

/// `#RRGGBB`, each component written as two upper-case hexadecimal digits.
pub open spec fn color_text(r: u8, g: u8, b: u8) -> Seq<char> {
    seq![
        '#',
        hex_digit(r / 16),
        hex_digit(r % 16),
        hex_digit(g / 16),
        hex_digit(g % 16),
        hex_digit(b / 16),
        hex_digit(b % 16),
    ]
}

proof fn lemma_overflow_persists(s: Seq<char>, n: int, m: int)
    requires
        0 <= n <= m,
        fingerprint_prefix(s, n) is None,
    ensures
        fingerprint_prefix(s, m) is None,
    decreases m - n,
{
    if n < m {
        lemma_overflow_persists(s, n, m - 1);
    }
}

/// The name a tag is made from.
pub fn tag_name(name: &str) -> (r: String)
    ensures
        r@ == tag_name_of(name@),
{
    match first_word_of(name) {
        Some(w) => w,
        None => "X".to_owned(),
    }
}

/// The fingerprint of a name; `None` where computing it overflows.
pub fn name_fingerprint(name: &str) -> (r: Option<u32>)
    ensures
        r == fingerprint(name@),
{
    let v = chars_of(name);
    let mut h: u32 = 0;
    let mut i: usize = 0;
    while i < v.len()
        invariant
            i <= v.len(),
            v@ == name@,
            fingerprint_prefix(v@, i as int) == Some(h),
        decreases v.len() - i,
    {
        if i >= 0xffff_ffff {
            proof {
                lemma_overflow_persists(v@, i + 1, v.len() as int);
            }
            return None;
        }
        let position: u32 = (i as u32) + 1;
        let scaled: u32 = (v[i] as u32).wrapping_mul(position);
        match scaled.checked_mul(37) {
            None => {
                proof {
                    lemma_overflow_persists(v@, i + 1, v.len() as int);
                }
                return None;
            },
            Some(m) => {
                h = h.wrapping_add(m);
            },
        }
        i = i + 1;
    }
    Some(h)
}

/// The hue of the tag of a user called `name`: the fingerprint of the first
/// word of the name, modulo 360; `None` where the fingerprint overflows.
pub fn tag_hue(name: &str) -> (r: Option<u32>)
    ensures
        r == tag_hue_of(name@),
{
    let first = tag_name(name);
    match name_fingerprint(first.as_str()) {
        Some(h) => Some(h % 360),
        None => None,
    }
}

fn hex_digit_char(n: u8) -> (c: char)
    requires
        n < 16,
    ensures
        c == hex_digit(n),
{
    if n < 10 {
        (n + 48) as char
    } else {
        (n + 55) as char
    }
}

/// The tag `#RRGGBB` of a colour.
pub fn color_tag(r: u8, g: u8, b: u8) -> (t: String)
    ensures
        t@ == color_text(r, g, b),
        t@.len() == 7,
        t@[0] == '#',
        t@[1] == hex_digits()[(r / 16) as int],
        t@[2] == hex_digits()[(r % 16) as int],
        t@[3] == hex_digits()[(g / 16) as int],
        t@[4] == hex_digits()[(g % 16) as int],
        t@[5] == hex_digits()[(b / 16) as int],
        t@[6] == hex_digits()[(b % 16) as int],
{
    proof {
        law_hex_digit_reads_back(r / 16);
        law_hex_digit_reads_back(r % 16);
        law_hex_digit_reads_back(g / 16);
        law_hex_digit_reads_back(g % 16);
        law_hex_digit_reads_back(b / 16);
        law_hex_digit_reads_back(b % 16);
    }
    let mut t = String::new();
    push_char(&mut t, '#');
    push_char(&mut t, hex_digit_char(r / 16));
    push_char(&mut t, hex_digit_char(r % 16));
    push_char(&mut t, hex_digit_char(g / 16));
    push_char(&mut t, hex_digit_char(g % 16));
    push_char(&mut t, hex_digit_char(b / 16));
    push_char(&mut t, hex_digit_char(b % 16));
    assert(t@ =~= color_text(r, g, b));
    t
}

/// Every digit stands for its value: the digit of `n` is the `n`-th of
/// `0123456789ABCDEF`, and reads back as `n`.
pub proof fn law_hex_digit_reads_back(n: u8)
    requires
        n < 16,
    ensures
        hex_digit(n) == hex_digits()[n as int],
        hex_value(hex_digit(n)) == n,
{
    reveal_strlit("0123456789ABCDEF");
    assert(hex_digits() =~= seq!['0', '1', '2', '3', '4', '5', '6', '7', '8', '9', 'A', 'B', 'C', 'D', 'E', 'F']);
    if n == 0 {} else if n == 1 {} else if n == 2 {} else if n == 3 {} else if n == 4 {}
    else if n == 5 {} else if n == 6 {} else if n == 7 {} else if n == 8 {} else if n == 9 {}
    else if n == 10 {} else if n == 11 {} else if n == 12 {} else if n == 13 {} else if n == 14 {}
    else {}
}

/// A colour tag reads back as its colour: `#`, then each component as two
/// hexadecimal digits, high one first.
pub proof fn law_color_tag_reads_back(r: u8, g: u8, b: u8)
    ensures
        color_text(r, g, b).len() == 7,
        color_text(r, g, b)[0] == '#',
        16 * hex_value(color_text(r, g, b)[1]) + hex_value(color_text(r, g, b)[2]) == r,
        16 * hex_value(color_text(r, g, b)[3]) + hex_value(color_text(r, g, b)[4]) == g,
        16 * hex_value(color_text(r, g, b)[5]) + hex_value(color_text(r, g, b)[6]) == b,
{
    law_hex_digit_reads_back(r / 16);
    law_hex_digit_reads_back(r % 16);
    law_hex_digit_reads_back(g / 16);
    law_hex_digit_reads_back(g % 16);
    law_hex_digit_reads_back(b / 16);
    law_hex_digit_reads_back(b % 16);
}

/// Whether a stored tag is of the old form and has to be made anew: every
/// tag that does not start with `#`.
pub fn needs_new_tag(tag: &str) -> (r: bool)
    ensures
        r == !(tag@.len() > 0 && tag@[0] == '#'),
{
    let v = chars_of(tag);
    !(v.len() > 0 && v[0] == '#')
}


/// Users whose names have the same first word get the same tag hue.
pub proof fn law_tag_hue_depends_on_first_word(a: Seq<char>, b: Seq<char>)
    requires
        first_word(a) == first_word(b),
    ensures
        tag_hue_of(a) == tag_hue_of(b),
{
}

/// The tag of a user is that of the first word of their name (or of `X`
/// when the name holds no word): the name a tag is made from gives itself
/// back, and the same hue.
pub proof fn law_tag_is_that_of_its_first_word(name: Seq<char>)
    ensures
        tag_name_of(tag_name_of(name)) == tag_name_of(name),
        tag_hue_of(tag_name_of(name)) == tag_hue_of(name),
{
    lemma_first_word_is_a_word(name);
    if first_word(name) is None {
        reveal_strlit("X");
        assert(!is_white_space("X"@[0]));
        lemma_word_is_its_own_first_word("X"@);
    }
}

proof fn lemma_fingerprint_prefix_agrees(s: Seq<char>, t: Seq<char>, n: int)
    requires
        0 <= n <= s.len(),
        n <= t.len(),
        forall|i: int| 0 <= i < n ==> s[i] == t[i],
    ensures
        fingerprint_prefix(s, n) == fingerprint_prefix(t, n),
    decreases n,
{
    if n > 0 {
        lemma_fingerprint_prefix_agrees(s, t, n - 1);
    }
}

/// The fingerprint of a name one character longer: the character `c` at
/// position `i` (the old length) adds `37 * (code of c * (i + 1) mod 2^32)`
/// modulo 2^32, or overflows (`None`) when `i + 1` or that product by 37
/// does not fit in a `u32`; once overflowed, it stays so.
pub proof fn law_fingerprint_of_one_more_char(s: Seq<char>, c: char)
    ensures
        ({
            let i = s.len() as int;
            let scaled = ((c as u32) as int * (i + 1)) % 0x1_0000_0000;
            match fingerprint(s) {
                Some(h) => if i + 1 <= u32::MAX && scaled * 37 <= u32::MAX {
                    fingerprint(s.push(c)) == Some(((h as int + 37 * scaled) % 0x1_0000_0000) as u32)
                } else {
                    fingerprint(s.push(c)) is None
                },
                None => fingerprint(s.push(c)) is None,
            }
        }),
{
    let t = s.push(c);
    lemma_fingerprint_prefix_agrees(s, t, s.len() as int);
    assert(t[s.len() as int] == c);
}

/// The fingerprint of the empty name is 0, and that of a single character
/// is 37 times its code (when that fits in a `u32`).
pub proof fn law_fingerprint_of_short_names(c: char)
    ensures
        fingerprint(Seq::<char>::empty()) == Some(0u32),
        (c as u32) as int * 37 <= u32::MAX ==> fingerprint(seq![c]) == Some(((c as u32) as int * 37) as u32),
{
    let one = seq![c];
    assert(one[0] == c);
    assert(one.len() == 1);
    reveal_with_fuel(fingerprint_prefix, 2);
    let code = (c as u32) as int;
    assert((code * 1) % 0x1_0000_0000 == code);
    if code * 37 <= u32::MAX {
        assert((0 + code * 37) % 0x1_0000_0000 == code * 37);
    }
}

/// The hue of a tag is the fingerprint of the name it is made from, modulo
/// 360, and there is none exactly when that fingerprint overflows.
pub proof fn law_tag_hue_is_fingerprint_mod_360(name: Seq<char>)
    ensures
        tag_hue_of(name) is None <==> fingerprint(tag_name_of(name)) is None,
        fingerprint(tag_name_of(name)) matches Some(h) ==> tag_hue_of(name) == Some(h % 360),
{
}

/// A tag hue is an angle below 360 degrees.
pub proof fn law_tag_hue_is_an_angle(name: Seq<char>)
    ensures
        tag_hue_of(name) matches Some(h) ==> h < 360,
{
}

/// A colour tag starts with `#`, so it is never taken for a tag of the old
/// form and made anew.
pub proof fn law_color_tags_are_current(r: u8, g: u8, b: u8)
    ensures
        color_text(r, g, b).len() == 7,
        color_text(r, g, b)[0] == '#',
{
}

// --- Login ---

/// An account as read for a login: the user's fields with the stored
/// password hash.
#[derive(Clone, Debug)]
pub struct StoredAccount {
    pub user_id: i64,
    pub name: String,
    pub email: String,
    pub role: String,
    pub service_id: Option<i64>,
    pub password_hash: String,
    pub user_tag: String,
    pub must_change_password: bool,
}

/// What a granted login answers for an account: its fields but the hash.
pub open spec fn login_response_of(a: StoredAccount) -> LoginResponse {
    LoginResponse {
        user_id: a.user_id,
        name: a.name,
        email: a.email,
        role: a.role,
        service_id: a.service_id,
        user_tag: a.user_tag,
        must_change_password: a.must_change_password,
    }
}

/// A login is granted when the account exists and the password matches
/// its stored hash.
pub open spec fn login_granted(account: Option<StoredAccount>, password: Seq<char>) -> bool {
    account matches Some(a) && password_accepted(password, a.password_hash@)
}

/// A login is granted exactly when an account was found and bcrypt
/// verifies the password against its stored hash.
pub proof fn law_login_granted_means_verified(account: Option<StoredAccount>, password: Seq<char>)
    ensures
        login_granted(account, password) <==> (account is Some && bcrypt_verdict(
            password,
            account->0.password_hash@,
        ) == Some(true)),
{
}

/// A granted login answers every stored field of the account but the hash,
/// unchanged, whatever its must-change flag.
pub proof fn law_login_response_keeps_fields(a: StoredAccount)
    ensures
        login_response_of(a).user_id == a.user_id,
        login_response_of(a).name == a.name,
        login_response_of(a).email == a.email,
        login_response_of(a).role == a.role,
        login_response_of(a).service_id == a.service_id,
        login_response_of(a).user_tag == a.user_tag,
        login_response_of(a).must_change_password == a.must_change_password,
{
}

/// The e-mail address a login looks the account up by: the one given,
/// without surrounding white space.
pub fn login_email(payload: &LoginPayload) -> (e: String)
    ensures
        e@ == trimmed(payload.email@),
{
    trim(payload.email.as_str())
}

/// The answer to a login, given the account found under its e-mail address
/// (`None` when there is none or the read failed) and the password given.
/// A missing account and a wrong password are answered alike: `401` with
/// `Identifiants invalides`.
pub fn decide_login(account: Option<StoredAccount>, password: &str) -> (r: Result<
    LoginResponse,
    TextReply,
>)
    ensures
        login_granted(account, password@) ==> r == Ok::<LoginResponse, TextReply>(
            login_response_of(account->0),
        ),
        login_granted(account, password@) ==> ({
            let a = account->0;
            &&& r is Ok
            &&& r->Ok_0.user_id == a.user_id
            &&& r->Ok_0.name == a.name
            &&& r->Ok_0.email == a.email
            &&& r->Ok_0.role == a.role
            &&& r->Ok_0.service_id == a.service_id
            &&& r->Ok_0.user_tag == a.user_tag
            &&& r->Ok_0.must_change_password == a.must_change_password
        }),
        !login_granted(account, password@) ==> r is Err && is_reply(
            r->Err_0,
            UNAUTHORIZED,
            "Identifiants invalides"@,
        ),
{
    match account {
        Some(a) => {
            if check_password(password, a.password_hash.as_str()) {
                Ok(
                    LoginResponse {
                        user_id: a.user_id,
                        name: a.name,
                        email: a.email,
                        role: a.role,
                        service_id: a.service_id,
                        user_tag: a.user_tag,
                        must_change_password: a.must_change_password,
                    },
                )
            } else {
                Err(reply(UNAUTHORIZED, "Identifiants invalides"))
            }
        },
        None => Err(reply(UNAUTHORIZED, "Identifiants invalides")),
    }
}


// --- Password change ---

/// The write a password change makes: the new hash of the account under
/// `email`, and its must-change flag.
#[derive(Clone, Debug)]
pub struct PasswordUpdate {
    pub email: String,
    pub password_hash: String,
    pub must_change_password: bool,
}

/// The account once a password update has been written to it.
pub open spec fn account_after_update(a: StoredAccount, u: PasswordUpdate) -> StoredAccount {
    StoredAccount {
        password_hash: u.password_hash,
        must_change_password: u.must_change_password,
        ..a
    }
}

/// What a password change decides, given the stored hash of the account
/// under the e-mail address of the request (`None` when there is none or
/// the read failed): `404` with `Utilisateur introuvable` when there is no
/// account, `401` with `Ancien mot de passe incorrect` when the old password
/// does not match, and otherwise the update to write, whose hash (of the form
/// bcrypt writes) accepts the new password and which clears the must-change flag, or `500` with
/// `Erreur de chiffrement` where hashing failed.
pub open spec fn password_change_result(
    stored_hash: Option<String>,
    payload: ChangePasswordPayload,
    r: Result<PasswordUpdate, TextReply>,
) -> bool {
    match stored_hash {
        None => r is Err && is_reply(r->Err_0, NOT_FOUND, "Utilisateur introuvable"@),
        Some(h) => if !password_accepted(payload.old_password@, h@) {
            r is Err && is_reply(r->Err_0, UNAUTHORIZED, "Ancien mot de passe incorrect"@)
        } else {
            match r {
                Ok(u) => {
                    &&& u.email == payload.email
                    &&& password_accepted(payload.new_password@, u.password_hash@)
                    &&& default_cost_hash_form(u.password_hash@)
                    &&& !u.must_change_password
                },
                Err(e) => is_reply(e, INTERNAL_SERVER_ERROR, "Erreur de chiffrement"@),
            }
        },
    }
}

/// The update for the account under `email` once the new password has been
/// hashed, or `500` with `Erreur de chiffrement` where hashing failed.
pub fn rehash_outcome(email: &String, hashed: Result<String, BcryptError>) -> (r: Result<
    PasswordUpdate,
    TextReply,
>)
    ensures
        match hashed {
            Ok(h) => r == Ok::<PasswordUpdate, TextReply>(
                PasswordUpdate { email: *email, password_hash: h, must_change_password: false },
            ),
            Err(_) => r is Err && is_reply(r->Err_0, INTERNAL_SERVER_ERROR, "Erreur de chiffrement"@),
        },
{
    match hashed {
        Ok(h) => Ok(
            PasswordUpdate { email: email.clone(), password_hash: h, must_change_password: false },
        ),
        Err(_) => Err(reply(INTERNAL_SERVER_ERROR, "Erreur de chiffrement")),
    }
}

/// Decides a password change: checks the old password against the stored
/// hash, then hashes the new one.
pub fn plan_password_change(stored_hash: Option<String>, payload: &ChangePasswordPayload) -> (r:
    Result<PasswordUpdate, TextReply>)
    ensures
        password_change_result(stored_hash, *payload, r),
{
    match stored_hash {
        None => Err(reply(NOT_FOUND, "Utilisateur introuvable")),
        Some(h) => {
            if !check_password(payload.old_password.as_str(), h.as_str()) {
                return Err(reply(UNAUTHORIZED, "Ancien mot de passe incorrect"));
            }
            let hashed = bcrypt_hash(payload.new_password.as_str());
            rehash_outcome(&payload.email, hashed)
        },
    }
}

/// The answer once the update has been written (`updated`) or has failed.
pub fn password_change_reply(updated: bool) -> (r: TextReply)
    ensures
        updated ==> is_reply(r, OK, "Mot de passe mis à jour"@),
        !updated ==> is_reply(r, INTERNAL_SERVER_ERROR, "Erreur de base de données"@),
{
    if updated {
        reply(OK, "Mot de passe mis à jour")
    } else {
        reply(INTERNAL_SERVER_ERROR, "Erreur de base de données")
    }
}

/// What a password change decides, clause by clause: `404` without an
/// account, `401` when bcrypt does not accept the old password against the
/// stored hash, and otherwise either the update for the same e-mail address
/// with a hash of bcrypt's form that bcrypt accepts for the new password and
/// the must-change flag cleared, or `500 Erreur de chiffrement`.
pub proof fn law_password_change_outcomes(
    stored_hash: Option<String>,
    payload: ChangePasswordPayload,
    r: Result<PasswordUpdate, TextReply>,
)
    requires
        password_change_result(stored_hash, payload, r),
    ensures
        stored_hash is None ==> r is Err && r->Err_0.status == 404 && r->Err_0.message@
            == "Utilisateur introuvable"@,
        stored_hash matches Some(h) && bcrypt_verdict(payload.old_password@, h@) != Some(true)
            ==> r is Err && r->Err_0.status == 401 && r->Err_0.message@
            == "Ancien mot de passe incorrect"@,
        r matches Ok(u) ==> {
            &&& stored_hash matches Some(h) && bcrypt_verdict(payload.old_password@, h@) == Some(true)
            &&& u.email == payload.email
            &&& bcrypt_verdict(payload.new_password@, u.password_hash@) == Some(true)
            &&& u.password_hash@.len() == 60
            &&& !u.must_change_password
        },
        (stored_hash matches Some(h) && bcrypt_verdict(payload.old_password@, h@) == Some(true)
            && r is Err) ==> r->Err_0.status == 500 && r->Err_0.message@ == "Erreur de chiffrement"@,
{
}

/// After a password change has been decided and its update written, a
/// login with the new password is granted, and it no longer asks for a
/// password change.
pub proof fn law_new_password_opens_login(
    account: StoredAccount,
    payload: ChangePasswordPayload,
    r: Result<PasswordUpdate, TextReply>,
)
    requires
        password_change_result(Some(account.password_hash), payload, r),
        r is Ok,
    ensures
        login_granted(Some(account_after_update(account, r->Ok_0)), payload.new_password@),
        !login_response_of(account_after_update(account, r->Ok_0)).must_change_password,
{
}

/// A password change never writes anything when the old password does not
/// match the stored hash.
pub proof fn law_wrong_old_password_changes_nothing(
    stored_hash: String,
    payload: ChangePasswordPayload,
    r: Result<PasswordUpdate, TextReply>,
)
    requires
        password_change_result(Some(stored_hash), payload, r),
        !password_accepted(payload.old_password@, stored_hash@),
    ensures
        r is Err,
        r->Err_0.status == UNAUTHORIZED,
{
}

} // verus!
