//! The settings of a client process that drives a node from the command line,
//! and the address of an application that it serves.

use core::marker::PhantomData;
use vstd::prelude::*;
use vstd::string::{StrSliceExecFns, StringExecFns, StringSliceAdditionalSpecFns};

verus! {

/// The decimal digit `d`, as a character.
pub open spec fn digit_char(d: nat) -> char {
    ((48 + d) as u8) as char
}

/// The decimal representation of `n`, without leading zeros.
pub open spec fn decimal(n: nat) -> Seq<char>
    decreases n,
{
    if n < 10 {
        seq![digit_char(n)]
    } else {
        decimal(n / 10) + seq![digit_char(n % 10)]
    }
}

/// Relies on `<usize as ToString>::to_string`: the decimal representation of `n`.
#[verifier::external_body]
fn decimal_string(n: usize) -> (r: String)
    ensures
        r@ == decimal(n as nat),
{
    n.to_string()
}

/// The pending message bundles that a client processes at most per block.
pub const MAX_PENDING_MESSAGE_BUNDLES: usize = 10_000;

/// The longest query text, in bytes, that messages quote in full.
pub const MAX_QUERY_OUTPUT: usize = 200;

/// What to do with the wallet's chains when the client goes away.
#[derive(Clone, Copy, Debug, PartialEq, Eq, Structural, Hash)]
pub enum OnClientDrop {
    /// Close all the chains on the wallet.
    CloseChains,
    /// Do not close any chains, leaving them active.
    LeakChains,
}

/// The settings of a client: where its wallet and storage live, and the
/// arguments that every command gets.
#[derive(Debug)]
pub struct ClientWrapper {
    binary_path: Option<String>,
    testing_prng_seed: Option<u64>,
    storage: String,
    wallet: String,
    max_pending_message_bundles: usize,
    path: String,
    on_drop: OnClientDrop,
}

impl ClientWrapper {
    pub closed spec fn spec_binary_path(&self) -> Option<Seq<char>> {
        match self.binary_path {
            Some(p) => Some(p@),
            None => None,
        }
    }

    pub closed spec fn spec_testing_prng_seed(&self) -> Option<u64> {
        self.testing_prng_seed
    }

    pub closed spec fn spec_storage(&self) -> Seq<char> {
        self.storage@
    }

    pub closed spec fn spec_wallet(&self) -> Seq<char> {
        self.wallet@
    }

    pub closed spec fn spec_max_pending_message_bundles(&self) -> nat {
        self.max_pending_message_bundles as nat
    }

    pub closed spec fn spec_path(&self) -> Seq<char> {
        self.path@
    }

    pub closed spec fn spec_on_drop(&self) -> OnClientDrop {
        self.on_drop
    }

    /// The client number `id` whose files live in the directory `path`: its
    /// storage is `rocksdb:<path>/client_<id>.db`, its wallet `wallet_<id>.json`.
    pub fn new(path: String, testing_prng_seed: Option<u64>, id: usize, on_drop: OnClientDrop) -> (r:
        ClientWrapper)
        ensures
            r.spec_binary_path() is None,
            r.spec_testing_prng_seed() == testing_prng_seed,
            r.spec_storage() == "rocksdb:"@ + path@ + "/client_"@ + decimal(id as nat) + ".db"@,
            r.spec_wallet() == "wallet_"@ + decimal(id as nat) + ".json"@,
            r.spec_max_pending_message_bundles() == MAX_PENDING_MESSAGE_BUNDLES,
            r.spec_path() == path@,
            r.spec_on_drop() == on_drop,
    {
        let number = decimal_string(id);
        let mut storage = String::from_str("rocksdb:");
        storage.append(path.as_str());
        storage.append("/client_");
        storage.append(number.as_str());
        storage.append(".db");
        let mut wallet = String::from_str("wallet_");
        wallet.append(number.as_str());
        wallet.append(".json");
        ClientWrapper {
            binary_path: None,
            testing_prng_seed,
            storage,
            wallet,
            max_pending_message_bundles: MAX_PENDING_MESSAGE_BUNDLES,
            path,
            on_drop,
        }
    }

    /// The arguments that every command of this client gets.
    pub fn command_arguments(&self) -> (r: Vec<String>)
        ensures
            r@.map_values(|s: String| s@) == seq![
                "--wallet"@,
                self.spec_wallet(),
                "--storage"@,
                self.spec_storage(),
                "--max-pending-message-bundles"@,
                decimal(self.spec_max_pending_message_bundles()),
                "--send-timeout-ms"@,
                "500000"@,
                "--recv-timeout-ms"@,
                "500000"@,
                "--wait-for-outgoing-messages"@,
            ],
    {
        let mut r: Vec<String> = Vec::new();
        r.push(String::from_str("--wallet"));
        r.push(self.wallet.clone());
        r.push(String::from_str("--storage"));
        r.push(self.storage.clone());
        r.push(String::from_str("--max-pending-message-bundles"));
        r.push(decimal_string(self.max_pending_message_bundles));
        r.push(String::from_str("--send-timeout-ms"));
        r.push(String::from_str("500000"));
        r.push(String::from_str("--recv-timeout-ms"));
        r.push(String::from_str("500000"));
        r.push(String::from_str("--wait-for-outgoing-messages"));
        assert(r@.map_values(|s: String| s@) =~= seq![
            "--wallet"@,
            self.spec_wallet(),
            "--storage"@,
            self.spec_storage(),
            "--max-pending-message-bundles"@,
            decimal(self.spec_max_pending_message_bundles()),
            "--send-timeout-ms"@,
            "500000"@,
            "--recv-timeout-ms"@,
            "500000"@,
            "--wait-for-outgoing-messages"@,
        ]);
        r
    }

    /// The binary that commands run, once it is known.
    pub fn cached_binary_path(&self) -> (r: Option<String>)
        ensures
            match r {
                Some(p) => self.spec_binary_path() == Some(p@),
                None => self.spec_binary_path() is None,
            },
    {
        match &self.binary_path {
            Some(p) => Some(p.clone()),
            None => None,
        }
    }

    /// Records the binary that commands run. Once recorded, the path may only
    /// be recorded again as the same path.
    pub fn set_cached_binary_path(&mut self, new_binary_path: String)
        requires
            old(self).spec_binary_path() matches Some(p) ==> p == new_binary_path@,
        ensures
            final(self).spec_binary_path() == Some(new_binary_path@),
            final(self).spec_testing_prng_seed() == old(self).spec_testing_prng_seed(),
            final(self).spec_storage() == old(self).spec_storage(),
            final(self).spec_wallet() == old(self).spec_wallet(),
            final(self).spec_max_pending_message_bundles() == old(
                self,
            ).spec_max_pending_message_bundles(),
            final(self).spec_path() == old(self).spec_path(),
            final(self).spec_on_drop() == old(self).spec_on_drop(),
    {
        if self.binary_path.is_none() {
            self.binary_path = Some(new_binary_path);
        }
    }

    /// The path of the wallet file: `<path>/<wallet>`.
    pub fn wallet_path(&self) -> (r: String)
        ensures
            r@ == self.spec_path() + "/"@ + self.spec_wallet(),
    {
        let mut r = self.path.clone();
        r.append("/");
        r.append(self.wallet.as_str());
        r
    }

    /// The storage configuration of this client.
    pub fn storage_path(&self) -> (r: &str)
        ensures
            r@ == self.spec_storage(),
    {
        self.storage.as_str()
    }

    /// The directory of the client's files.
    pub fn path(&self) -> (r: &str)
        ensures
            r@ == self.spec_path(),
    {
        self.path.as_str()
    }

    /// What to do with the wallet's chains when the client goes away.
    pub fn on_drop(&self) -> (r: OnClientDrop)
        ensures
            r == self.spec_on_drop(),
    {
        self.on_drop
    }
}

/// `input` where it is shorter than `MAX_QUERY_OUTPUT` bytes; else its first
/// `MAX_QUERY_OUTPUT` bytes followed by ` ...`.
pub fn truncate_query_output(input: &str) -> (r: String)
    requires
        input.len() < MAX_QUERY_OUTPUT || vstd::utf8::is_char_boundary(
            input.spec_bytes(),
            MAX_QUERY_OUTPUT as int,
        ),
    ensures
        input.len() < MAX_QUERY_OUTPUT ==> r@ == input@,
        input.len() >= MAX_QUERY_OUTPUT ==> exists|head: Seq<char>|
            vstd::utf8::encode_utf8(head) == input.spec_bytes().subrange(0, MAX_QUERY_OUTPUT as int)
                && r@ == head + " ..."@,
{
    if input.len() < MAX_QUERY_OUTPUT {
        String::from_str(input)
    } else {
        let (head, _) = input.split_at(MAX_QUERY_OUTPUT);
        let mut r = String::from_str(head);
        r.append(" ...");
        assert(vstd::utf8::encode_utf8(head@) == input.spec_bytes().subrange(
            0,
            MAX_QUERY_OUTPUT as int,
        ));
        assert(r@ == head@ + " ..."@);
        r
    }
}

/// The address of an application that a node service serves, to query.
#[derive(Debug)]
pub struct ApplicationWrapper<A> {
    uri: String,
    _phantom: PhantomData<A>,
}

impl<A> ApplicationWrapper<A> {
    pub closed spec fn spec_uri(&self) -> Seq<char> {
        self.uri@
    }

    /// The address that queries go to.
    pub fn uri(&self) -> (r: &str)
        ensures
            r@ == self.spec_uri(),
    {
        self.uri.as_str()
    }
}

impl<A> From<String> for ApplicationWrapper<A> {
    fn from(uri: String) -> (r: ApplicationWrapper<A>) {
        ApplicationWrapper { uri, _phantom: PhantomData }
    }
}

impl<A> vstd::std_specs::convert::FromSpecImpl<String> for ApplicationWrapper<A> {
    open spec fn obeys_from_spec() -> bool {
        true
    }

    closed spec fn from_spec(uri: String) -> ApplicationWrapper<A> {
        ApplicationWrapper { uri, _phantom: PhantomData }
    }
}

} // verus!
