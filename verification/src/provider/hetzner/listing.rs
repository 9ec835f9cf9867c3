//! What the provider offers: locations, server types and SSH keys, as they
//! are shown when a configuration is made.

use crate::text::{push_signed, signed_decimal};
use vstd::prelude::*;
use vstd::string::*;

verus! {

/// A place where servers stand.
#[derive(Debug)]
pub struct Location {
    pub name: String,
    pub country: String,
    pub description: String,
}

/// The answer to the request for the locations.
#[derive(Debug)]
pub struct LoactionResponse {
    pub locations: Vec<Location>,
}

/// An SSH key of the account.
#[derive(Debug)]
pub struct SSHKey {
    pub name: String,
    pub fingerprint: String,
}

/// The answer to the request for the SSH keys.
#[derive(Debug)]
pub struct SSHResponse {
    pub ssh_keys: Vec<SSHKey>,
}

/// A kind of server.
#[derive(Debug)]
pub struct ServerTypes {
    pub name: String,
    pub cores: i32,
    pub memory: i32,
    pub architecture: String,
    pub category: String,
}

/// The answer to the request for the server types.
#[derive(Debug)]
pub struct ServerTypesResponse {
    pub server_types: Vec<ServerTypes>,
}

/// How a location is shown.
pub open spec fn location_label(name: Seq<char>, country: Seq<char>, description: Seq<char>)
    -> Seq<char> {
    name + " (Country: "@ + country + ", Description: "@ + description + ")"@
}

/// How an SSH key is shown.
pub open spec fn key_label(name: Seq<char>, fingerprint: Seq<char>) -> Seq<char> {
    name + " ("@ + fingerprint + ")"@
}

/// How a server type is shown.
pub open spec fn server_type_label(
    name: Seq<char>,
    architecture: Seq<char>,
    cores: i32,
    memory: i32,
    category: Seq<char>,
) -> Seq<char> {
    name + " ("@ + architecture + "-Cores: "@ + signed_decimal(cores as int) + " Ram: "@
        + signed_decimal(memory as int) + ", Category: "@ + category + ")"@
}

impl Location {
    /// The line that stands for this location in a list.
    pub fn label(&self) -> (r: String)
        ensures
            r@ == location_label(self.name@, self.country@, self.description@),
    {
        let mut out = self.name.clone();
        out.append(" (Country: ");
        out.append(self.country.as_str());
        out.append(", Description: ");
        out.append(self.description.as_str());
        out.append(")");
        out
    }
}

impl SSHKey {
    /// The line that stands for this key in a list.
    pub fn label(&self) -> (r: String)
        ensures
            r@ == key_label(self.name@, self.fingerprint@),
    {
        let mut out = self.name.clone();
        out.append(" (");
        out.append(self.fingerprint.as_str());
        out.append(")");
        out
    }
}

impl ServerTypes {
    /// The line that stands for this server type in a list.
    pub fn label(&self) -> (r: String)
        ensures
            r@ == server_type_label(
                self.name@,
                self.architecture@,
                self.cores,
                self.memory,
                self.category@,
            ),
    {
        let mut out = self.name.clone();
        out.append(" (");
        out.append(self.architecture.as_str());
        out.append("-Cores: ");
        push_signed(&mut out, self.cores as i64);
        out.append(" Ram: ");
        push_signed(&mut out, self.memory as i64);
        out.append(", Category: ");
        out.append(self.category.as_str());
        out.append(")");
        out
    }
}

} // verus!
