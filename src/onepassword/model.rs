//! The records the secrets service exchanges.
use vstd::prelude::*;

use crate::onepassword::error::OnePasswordError;
use crate::onepassword::reference::{
    is_segment, is_segment_text, join_with_slash, parsed_reference, reference_prefix, reference_segments, reference_text,
};

verus! {

/// The interface through which the service was reached.
#[derive(Clone, Debug, PartialEq, Eq, Hash, PartialOrd, Ord)]
pub enum Api {
    Cli,
    Unrecognized(String),
}

/// The version of the interface through which the service was reached.
#[derive(Clone, Debug, PartialEq, Eq)]
pub struct ApiVersion {
    pub api: Api,
    pub version: String,
}

/// A request for the content of one field.
#[derive(Clone, Debug, PartialEq, Eq)]
pub struct ReadRequest {
    pub resource: FieldResource,
}

/// A class of characters a password generator may use.
#[derive(Clone, Debug, PartialEq, Eq)]
pub enum CharacterSet {
    Letters,
    Digits,
    Symbols,
    Unrecognized(String),
}

/// A request to store a file as a document item.
#[derive(Clone, Debug, PartialEq, Eq)]
pub struct DocumentCreateRequest {
    pub title: String,
    pub vault: String,
    pub file_name: String,
    pub data: Vec<u8>,
    pub tags: Vec<String>,
}

/// The kind of value a field holds.
#[derive(Clone, Debug, PartialEq, Eq, Hash, PartialOrd, Ord)]
pub enum FieldType {
    String,
    Email,
    Concealed,
    Url,
    Totp,
    Date,
    MonthYear,
    Menu,
    Unrecognized(String),
}

/// How a generated password is made.
#[derive(Clone, Debug, PartialEq, Eq)]
pub struct GeneratorRecipe {
    pub length: u64,
    pub character_sets: Vec<CharacterSet>,
    pub exclude_characters: String,
}

/// The category of an item.
#[derive(Clone, Debug, PartialEq, Eq)]
pub enum ItemCategory {
    Login,
    Password,
    ApiCredential,
    Server,
    Database,
    CreditCard,
    Membership,
    Passport,
    SoftwareLicense,
    OutdoorLicense,
    SecureNode,
    WirelessRouter,
    BankAccount,
    DriverLicense,
    Identity,
    RewardProgram,
    Document,
    EmailAccount,
    SocialSecurityNumber,
    MedicalRecord,
    SshKey,
    Custom,
    Unrecognized(String),
}

/// A request for one item.
#[derive(Clone, Debug, PartialEq, Eq)]
pub struct ItemGetRequest {
    pub resource: ItemResource,
}

/// The lifecycle state of an item.
#[derive(Clone, Debug, PartialEq, Eq)]
pub enum ItemState {
    Archived,
    Deleted,
    Unrecognized(String),
}

/// A web address attached to an item.
#[derive(Clone, Debug, PartialEq, Eq)]
pub struct ItemUrl {
    pub label: Option<String>,
    pub primary: Option<bool>,
    pub href: String,
}

/// The strength the service grades a password with.
#[derive(Clone, Debug, PartialEq, Eq, Hash, PartialOrd, Ord)]
pub enum PasswordStrength {
    Terrible,
    Unrecognized(String),
}

/// The content of a secret that was read.
#[derive(Clone, Debug, PartialEq, Eq)]
pub struct ReadResponse {
    pub content: Vec<u8>,
}

/// A vault, an item of a vault, or a field of an item, by identifiers.
#[derive(Clone, Debug, PartialEq, Eq)]
pub enum Resource {
    Vault { vault_id: String },
    Item { vault_id: String, item_id: String },
    Content { vault_id: String, item_id: String, field_id: String },
}

/// The kind of account of a user.
#[derive(Clone, Debug)]
pub enum UserType {
    Member,
    ServiceAccount,
    Unknown(String),
}

/// The kind of a vault.
#[derive(Clone, Debug, PartialEq, Eq)]
pub enum VaultType {
    UserCreated,
    Personal,
    Everyone,
    Transfer,
    Unrecognized(String),
}

/// A reference to a field of an item: `op://<vault>/<item>/<field>`.
#[derive(Clone, Debug, PartialEq, Eq)]
pub struct FieldResource {
    vault: String,
    item: String,
    field: String,
}

impl FieldResource {
    pub closed spec fn spec_vault(&self) -> Seq<char> {
        self.vault@
    }

    pub closed spec fn spec_item(&self) -> Seq<char> {
        self.item@
    }

    pub closed spec fn spec_field(&self) -> Seq<char> {
        self.field@
    }

    /// The segments the reference names, in order.
    pub open spec fn spec_segments(&self) -> Seq<Seq<char>> {
        seq![self.spec_vault(), self.spec_item(), self.spec_field()]
    }

    pub fn vault(&self) -> (r: &str)
        ensures
            r@ == self.spec_vault(),
    {
        self.vault.as_str()
    }

    pub fn item(&self) -> (r: &str)
        ensures
            r@ == self.spec_item(),
    {
        self.item.as_str()
    }

    pub fn field(&self) -> (r: &str)
        ensures
            r@ == self.spec_field(),
    {
        self.field.as_str()
    }

    /// The reference to a field of an item of a vault; each must be one or
    /// more ASCII letters or digits, else the reference fails to parse.
    pub fn new(vault: String, item: String, field: String) -> (r: Result<
        FieldResource,
        OnePasswordError,
    >)
        ensures
            (is_segment(vault@) && is_segment(item@) && is_segment(field@)) <==> r is Ok,
            r matches Err(e) ==> e is ResourceParsingFailed,
            r matches Ok(f) ==> f.spec_vault() == vault@ && f.spec_item() == item@ && f.spec_field()
                == field@,
    {
        if is_segment_text(vault.as_str()) && is_segment_text(item.as_str()) && is_segment_text(
            field.as_str(),
        ) {
            Ok(FieldResource { vault, item, field })
        } else {
            Err(OnePasswordError::new_resource_parsing_failed())
        }
    }

    /// Reads a field reference; a text that is none fails to parse.
    pub fn parse(s: &str) -> (r: Result<FieldResource, OnePasswordError>)
        ensures
            parsed_reference(s@, 3) is None <==> r is Err,
            r matches Err(e) ==> e is ResourceParsingFailed,
            r matches Ok(f) ==> parsed_reference(s@, 3) == Some(f.spec_segments()),
    {
        match reference_segments(s, 3) {
            Some(parts) => {
                let r = FieldResource {
                    vault: parts[0].clone(),
                    item: parts[1].clone(),
                    field: parts[2].clone(),
                };
                assert(r.spec_segments() == parts@.map_values(|p: String| p@));
                Ok(r)
            },
            None => Err(OnePasswordError::new_resource_parsing_failed()),
        }
    }

    /// The reference text.
    pub fn to_string(&self) -> (r: String)
        ensures
            r@ == reference_text(self.spec_segments()),
    {
        let r = String::from_str("op://").concat(self.vault.as_str()).concat("/").concat(
            self.item.as_str(),
        ).concat("/").concat(self.field.as_str());
        proof {
            reveal_strlit("op://");
            reveal_strlit("/");
            let segs = self.spec_segments();
            assert("op://"@ =~= reference_prefix());
            assert("/"@ =~= seq!['/']);
            assert(segs.drop_last().drop_last() == seq![self.vault@]);
            assert(segs.drop_last() == seq![self.vault@, self.item@]);
            assert(seq![self.vault@, self.item@].drop_last() == seq![self.vault@]);
            assert(join_with_slash(seq![self.vault@]) == self.vault@);
            assert(join_with_slash(segs.drop_last()) == self.vault@ + seq!['/'] + self.item@);
            assert(r@ =~= reference_text(segs));
        }
        r
    }
}

impl std::str::FromStr for FieldResource {
    type Err = OnePasswordError;

    fn from_str(s: &str) -> Result<Self, Self::Err> {
        FieldResource::parse(s)
    }
}

/// A reference to an item of a vault: `op://<vault>/<item>`.
#[derive(Clone, Debug, PartialEq, Eq)]
pub struct ItemResource {
    pub vault: String,
    pub item: String,
}

impl ItemResource {
    /// The segments the reference names, in order.
    pub open spec fn spec_segments(&self) -> Seq<Seq<char>> {
        seq![self.vault@, self.item@]
    }

    /// Reads an item reference; a text that is none fails to parse.
    pub fn parse(s: &str) -> (r: Result<ItemResource, OnePasswordError>)
        ensures
            parsed_reference(s@, 2) is None <==> r is Err,
            r matches Err(e) ==> e is ResourceParsingFailed,
            r matches Ok(i) ==> parsed_reference(s@, 2) == Some(i.spec_segments()),
    {
        match reference_segments(s, 2) {
            Some(parts) => {
                let r = ItemResource { vault: parts[0].clone(), item: parts[1].clone() };
                assert(r.spec_segments() == parts@.map_values(|p: String| p@));
                Ok(r)
            },
            None => Err(OnePasswordError::new_resource_parsing_failed()),
        }
    }

    /// The reference text.
    pub fn to_string(&self) -> (r: String)
        ensures
            r@ == reference_text(self.spec_segments()),
    {
        let r = String::from_str("op://").concat(self.vault.as_str()).concat("/").concat(
            self.item.as_str(),
        );
        proof {
            reveal_strlit("op://");
            reveal_strlit("/");
            assert("op://"@ =~= reference_prefix());
            assert("/"@ =~= seq!['/']);
            assert(self.spec_segments().drop_last() == seq![self.vault@]);
            assert(join_with_slash(seq![self.vault@]) == self.vault@);
            assert(r@ =~= reference_text(self.spec_segments()));
        }
        r
    }
}

impl std::str::FromStr for ItemResource {
    type Err = OnePasswordError;

    fn from_str(s: &str) -> Result<Self, Self::Err> {
        ItemResource::parse(s)
    }
}

/// A reference to a vault: `op://<vault>`.
#[derive(Clone, Debug, PartialEq, Eq)]
pub struct VaultResource {
    pub vault: String,
}

impl VaultResource {
    /// The segments the reference names.
    pub open spec fn spec_segments(&self) -> Seq<Seq<char>> {
        seq![self.vault@]
    }

    pub fn vault(&self) -> (r: &str)
        ensures
            r@ == self.vault@,
    {
        self.vault.as_str()
    }

    /// Reads a vault reference; a text that is none fails to parse.
    pub fn parse(s: &str) -> (r: Result<VaultResource, OnePasswordError>)
        ensures
            parsed_reference(s@, 1) is None <==> r is Err,
            r matches Err(e) ==> e is ResourceParsingFailed,
            r matches Ok(v) ==> parsed_reference(s@, 1) == Some(v.spec_segments()),
    {
        match reference_segments(s, 1) {
            Some(parts) => {
                let r = VaultResource { vault: parts[0].clone() };
                assert(r.spec_segments() == parts@.map_values(|p: String| p@));
                Ok(r)
            },
            None => Err(OnePasswordError::new_resource_parsing_failed()),
        }
    }

    /// The reference text.
    pub fn to_string(&self) -> (r: String)
        ensures
            r@ == reference_text(self.spec_segments()),
    {
        let r = String::from_str("op://").concat(self.vault.as_str());
        proof {
            reveal_strlit("op://");
        }
        r
    }
}

impl std::str::FromStr for VaultResource {
    type Err = OnePasswordError;

    fn from_str(s: &str) -> Result<Self, Self::Err> {
        VaultResource::parse(s)
    }
}

} // verus!
