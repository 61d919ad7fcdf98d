//! Zero sized types and traits encoding access constraints into the type system.
use vstd::prelude::*;

verus! {

/// The supertrait that keeps the set of access types closed.
pub trait Sealed {}

/// A type that is accessible (i.e. *not* [NoAccess])
pub trait Accessible: Sealed {}

/// A type that is readable
pub trait Readable: Accessible {}

/// A type that is writable
pub trait Writable: Accessible {}

/// Implements [`Accessible`], and [`Readable`]
#[derive(Debug, Default, Copy, Clone)]
pub struct Read;

impl Sealed for Read {}

impl Accessible for Read {}

impl Readable for Read {}

/// Implements [`Accessible`], and [`Writable`]
#[derive(Debug, Default, Copy, Clone)]
pub struct Write;

impl Sealed for Write {}

impl Accessible for Write {}

impl Writable for Write {}

/// Implements [`Accessible`], [`Readable`], [`Writable`]
#[derive(Debug, Default, Copy, Clone)]
pub struct ReadWrite;

impl Sealed for ReadWrite {}

impl Accessible for ReadWrite {}

impl Readable for ReadWrite {}

impl Writable for ReadWrite {}

/// No access at all.
#[derive(Debug, Default, Copy, Clone)]
pub struct NoAccess;

impl Sealed for NoAccess {}

} // verus!
