//! A small library for picking and ordering localized name strings.
//!
//! Font-enumeration APIs hand back, for each semantic name of a font (its
//! family name, face name, copyright notice, and so on), a group of localized
//! spellings: pairs of a text and a BCP-47-like locale tag. This crate holds
//! the policy for working with such groups:
//!
//! * [`localized_strings`] — the value types: one localized spelling
//!   ([`localized_strings::LocalizedString`]) and a group of them
//!   ([`localized_strings::StringGroup`]).
//! * [`collate`] — a deterministic, stable reordering of a group by a
//!   caller-supplied locale priority list, for displaying every variant.
//! * [`resolve`] — reduction of a group to the single best display string
//!   under a locale fallback chain.
//! * [`category`] — the closed vocabulary of semantic name categories.
//! * [`attributes`] — the non-localized scalar attributes of a font: weight,
//!   style, stretch, simulation flags.
//! * [`aggregate`] — building one flat record per enumerated item by
//!   resolving every requested category of a materialized snapshot.
//! * [`order`] and [`text`] — the collation order itself and the character
//!   comparisons it rests on.
//!
//! The platform binding that enumerates fonts and fetches the raw groups is a
//! collaborator outside this crate; everything here is a pure function over
//! already-materialized data.

pub mod aggregate;
pub mod attributes;
pub mod category;
pub mod collate;
pub mod localized_strings;
pub mod order;
pub mod resolve;
pub mod text;
