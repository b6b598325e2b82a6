//! Identity resolution: which name a user is shown under.

use vstd::prelude::*;
use crate::entities::{CachedUser, MessageAuthor, User};
use crate::strutil::str_eq;

verus! {

/// Entities that carry identity information.
pub trait Identifiable {
    /// The account name.
    spec fn spec_username(&self) -> Seq<char>;

    /// The legacy discriminator (`"0"` for migrated accounts).
    spec fn spec_discriminator(&self) -> Seq<char>;

    /// The display name, if the user set one.
    spec fn spec_global_name(&self) -> Option<Seq<char>>;

    fn username(&self) -> (r: &str)
        ensures
            r@ == self.spec_username(),
    ;

    fn discriminator(&self) -> (r: &str)
        ensures
            r@ == self.spec_discriminator(),
    ;

    fn global_name(&self) -> (r: Option<&str>)
        ensures
            match r {
                Some(s) => self.spec_global_name() == Some(s@),
                None => self.spec_global_name() is None,
            },
    ;
}

impl Identifiable for User {
    open spec fn spec_username(&self) -> Seq<char> {
        User::spec_username(*self)
    }

    open spec fn spec_discriminator(&self) -> Seq<char> {
        User::spec_discriminator(*self)
    }

    open spec fn spec_global_name(&self) -> Option<Seq<char>> {
        User::spec_global_name(*self)
    }

    fn username(&self) -> &str {
        User::username(self)
    }

    fn discriminator(&self) -> &str {
        User::discriminator(self)
    }

    fn global_name(&self) -> Option<&str> {
        User::global_name(self)
    }
}

impl Identifiable for CachedUser {
    open spec fn spec_username(&self) -> Seq<char> {
        CachedUser::spec_username(*self)
    }

    open spec fn spec_discriminator(&self) -> Seq<char> {
        CachedUser::spec_discriminator(*self)
    }

    open spec fn spec_global_name(&self) -> Option<Seq<char>> {
        None
    }

    fn username(&self) -> &str {
        CachedUser::username(self)
    }

    fn discriminator(&self) -> &str {
        CachedUser::discriminator(self)
    }

    fn global_name(&self) -> Option<&str> {
        None
    }
}

impl Identifiable for MessageAuthor {
    open spec fn spec_username(&self) -> Seq<char> {
        self.username@
    }

    open spec fn spec_discriminator(&self) -> Seq<char> {
        self.discriminator@
    }

    open spec fn spec_global_name(&self) -> Option<Seq<char>> {
        match self.global_name {
            Some(g) => Some(g@),
            None => None,
        }
    }

    fn username(&self) -> &str {
        MessageAuthor::username(self)
    }

    fn discriminator(&self) -> &str {
        MessageAuthor::discriminator(self)
    }

    fn global_name(&self) -> (r: Option<&str>) {
        match &self.global_name {
            Some(g) => Some(g.as_str()),
            None => None,
        }
    }
}

/// The name [`IdentityService::get_preferred_name`] resolves to: the
/// display name when asked for and set; else the bare account name for
/// migrated accounts (discriminator `"0"`); else the account name with
/// the discriminator after a `#`.
pub open spec fn spec_preferred_name(
    username: Seq<char>,
    discriminator: Seq<char>,
    global_name: Option<Seq<char>>,
    use_display_name: bool,
) -> Seq<char> {
    if use_display_name && global_name is Some {
        global_name.unwrap()
    } else if discriminator == "0"@ {
        username
    } else {
        username + "#"@ + discriminator
    }
}

/// Resolves user names according to the configured preference.
pub struct IdentityService;

impl IdentityService {
    /// The preferred name of `user`: its display name when
    /// `use_display_name` is set and the user has one, otherwise the
    /// username (with the discriminator appended for legacy accounts).
    pub fn get_preferred_name<T: Identifiable>(user: &T, use_display_name: bool) -> (r: String)
        ensures
            r@ == spec_preferred_name(
                user.spec_username(),
                user.spec_discriminator(),
                user.spec_global_name(),
                use_display_name,
            ),
    {
        if use_display_name {
            if let Some(g) = user.global_name() {
                return g.to_owned();
            }
        }
        if str_eq(user.discriminator(), "0") {
            user.username().to_owned()
        } else {
            let mut out = user.username().to_owned();
            out.append("#");
            out.append(user.discriminator());
            out
        }
    }
}

} // verus!
