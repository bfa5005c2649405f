//! A parsed `--flag value` pair from the tail of the argument list.

use vstd::prelude::*;

use crate::text::str_eq;

verus! {

#[derive(Debug)]
pub struct FlagCommand {
    pub flag: Option<String>,
    pub value: Option<String>,
}

impl FlagCommand {
    pub fn new_from_clone(flag: Option<&String>, value: Option<&String>) -> (r: Self)
        ensures
            match flag {
                Some(f) => r.flag == Some(*f),
                None => r.flag is None,
            },
            match value {
                Some(v) => r.value == Some(*v),
                None => r.value is None,
            },
    {
        FlagCommand {
            flag: match flag {
                Some(f) => Some(f.clone()),
                None => None,
            },
            value: match value {
                Some(v) => Some(v.clone()),
                None => None,
            },
        }
    }

    pub fn has_flag(&self) -> (r: bool)
        ensures
            r == (self.flag matches Some(f) && f@.len() > 0),
    {
        match &self.flag {
            Some(flag) => !flag.as_str().is_empty(),
            None => false,
        }
    }

    pub fn has_value(&self) -> (r: bool)
        ensures
            r == (self.value matches Some(v) && v@.len() > 0),
    {
        match &self.value {
            Some(value) => !value.as_str().is_empty(),
            None => false,
        }
    }

    pub fn flag_is(&self, value: &str) -> (r: bool)
        ensures
            r == (self.flag matches Some(f) && f@ == value@),
    {
        match &self.flag {
            Some(flag) => str_eq(flag.as_str(), value),
            None => false,
        }
    }

    pub fn flag_or<T>(&self, or: T) -> (r: Result<String, T>)
        ensures
            match self.flag {
                Some(f) => r == Ok::<String, T>(f),
                None => r == Err::<String, T>(or),
            },
    {
        match &self.flag {
            Some(flag) => Ok(flag.clone()),
            None => Err(or),
        }
    }

    pub fn value_or<T>(&self, or: T) -> (r: Result<String, T>)
        ensures
            match self.value {
                Some(v) => r == Ok::<String, T>(v),
                None => r == Err::<String, T>(or),
            },
    {
        match &self.value {
            Some(value) => Ok(value.clone()),
            None => Err(or),
        }
    }
}

} // verus!
