//! The user-shaped domain entities the identity service works over.

use vstd::prelude::*;

verus! {

/// A platform user.
#[derive(Debug, Clone)]
pub struct User {
    id: u64,
    username: String,
    discriminator: String,
    avatar: Option<String>,
    bot: bool,
    global_name: Option<String>,
}

impl User {
    /// A user with the given account data.
    pub fn new(
        id: u64,
        username: &str,
        discriminator: &str,
        avatar: Option<String>,
        bot: bool,
        global_name: Option<String>,
    ) -> (u: User)
        ensures
            u.spec_id() == id,
            u.spec_username() == username@,
            u.spec_discriminator() == discriminator@,
            u.spec_global_name() == match global_name {
                Some(g) => Some(g@),
                None => None::<Seq<char>>,
            },
            u.spec_bot() == bot,
    {
        User {
            id,
            username: username.to_owned(),
            discriminator: discriminator.to_owned(),
            avatar,
            bot,
            global_name,
        }
    }

    /// The same user with the display name set.
    pub fn with_global_name(self, name: &str) -> (u: User)
        ensures
            u.spec_id() == self.spec_id(),
            u.spec_username() == self.spec_username(),
            u.spec_discriminator() == self.spec_discriminator(),
            u.spec_global_name() == Some(name@),
            u.spec_bot() == self.spec_bot(),
    {
        User { global_name: Some(name.to_owned()), ..self }
    }

    pub closed spec fn spec_id(self) -> u64 {
        self.id
    }

    pub closed spec fn spec_username(self) -> Seq<char> {
        self.username@
    }

    pub closed spec fn spec_discriminator(self) -> Seq<char> {
        self.discriminator@
    }

    pub closed spec fn spec_global_name(self) -> Option<Seq<char>> {
        match self.global_name {
            Some(g) => Some(g@),
            None => None,
        }
    }

    pub closed spec fn spec_bot(self) -> bool {
        self.bot
    }

    /// The account name.
    pub fn username(&self) -> (r: &str)
        ensures
            r@ == self.spec_username(),
    {
        self.username.as_str()
    }

    /// The legacy discriminator; `"0"` for migrated accounts.
    pub fn discriminator(&self) -> (r: &str)
        ensures
            r@ == self.spec_discriminator(),
    {
        self.discriminator.as_str()
    }

    /// The display name, when the user set one.
    pub fn global_name(&self) -> (r: Option<&str>)
        ensures
            match r {
                Some(s) => self.spec_global_name() == Some(s@),
                None => self.spec_global_name() is None,
            },
    {
        match &self.global_name {
            Some(g) => Some(g.as_str()),
            None => None,
        }
    }
}

/// The slice of a user kept in the local cache.
#[derive(Debug, Clone)]
pub struct CachedUser {
    username: String,
    discriminator: String,
}

impl CachedUser {
    /// A cache entry for the given account.
    pub fn new(username: &str, discriminator: &str) -> (u: CachedUser)
        ensures
            u.spec_username() == username@,
            u.spec_discriminator() == discriminator@,
    {
        CachedUser { username: username.to_owned(), discriminator: discriminator.to_owned() }
    }

    pub closed spec fn spec_username(self) -> Seq<char> {
        self.username@
    }

    pub closed spec fn spec_discriminator(self) -> Seq<char> {
        self.discriminator@
    }

    /// The account name.
    pub fn username(&self) -> (r: &str)
        ensures
            r@ == self.spec_username(),
    {
        self.username.as_str()
    }

    /// The legacy discriminator.
    pub fn discriminator(&self) -> (r: &str)
        ensures
            r@ == self.spec_discriminator(),
    {
        self.discriminator.as_str()
    }
}

/// The author data carried on a message.
#[derive(Debug, Clone)]
pub struct MessageAuthor {
    pub username: String,
    pub discriminator: String,
    pub global_name: Option<String>,
}

impl MessageAuthor {
    /// The account name.
    pub fn username(&self) -> (r: &str)
        ensures
            r@ == self.username@,
    {
        self.username.as_str()
    }

    /// The legacy discriminator.
    pub fn discriminator(&self) -> (r: &str)
        ensures
            r@ == self.discriminator@,
    {
        self.discriminator.as_str()
    }
}

} // verus!
