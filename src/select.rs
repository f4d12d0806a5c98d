use vstd::prelude::*;
use crate::sheet::Sheet;

verus! {

/// Why a conversion stopped. Every failure ends the conversion.
#[derive(Clone, Debug, PartialEq)]
pub enum ConvertError {
    /// The workbook file could not be read or is not a valid workbook.
    WorkbookOpen(String),
    /// No sheet has the requested name, which the error carries.
    SheetNotFound(String),
    /// The workbook declares no sheet at all, so there is no first sheet.
    NoSheets,
    /// The worksheet's data is structurally invalid.
    SheetDecode(String),
    /// Writing the output failed.
    OutputWrite(String),
}

/// The sheet names as character sequences, in declared order.
pub open spec fn names_view(names: Seq<String>) -> Seq<Seq<char>> {
    names.map_values(|s: String| s@)
}

/// `i` is the first position whose name is `name`.
pub open spec fn first_position(names: Seq<Seq<char>>, name: Seq<char>, i: int) -> bool {
    &&& 0 <= i < names.len()
    &&& names[i] == name
    &&& forall|k: int| 0 <= k < i ==> names[k] != name
}

/// Some name of `names` is `name`.
pub open spec fn has_name(names: Seq<Seq<char>>, name: Seq<char>) -> bool {
    exists|i: int| 0 <= i < names.len() && names[i] == name
}

/// The first position of `name` among `names`, by exact, case-sensitive match.
pub fn find_sheet(names: &Vec<String>, name: &String) -> (r: Option<usize>)
    ensures
        r is Some <==> has_name(names_view(names@), name@),
        r matches Some(i) ==> first_position(names_view(names@), name@, i as int),
{
    let ghost view = names_view(names@);
    let mut i: usize = 0;
    while i < names.len()
        invariant
            i <= names@.len(),
            view == names_view(names@),
            forall|k: int| 0 <= k < i ==> view[k] != name@,
        decreases names@.len() - i,
    {
        if names[i] == *name {
            proof {
                assert(view[i as int] == name@);
            }
            return Some(i);
        }
        i = i + 1;
    }
    None
}

/// The name of the target sheet: the requested one when it is declared,
/// the first declared one when none is requested.
pub fn resolve_sheet_name(names: &Vec<String>, requested: Option<String>) -> (r: Result<
    String,
    ConvertError,
>)
    ensures
        match requested {
            Some(n) => {
                &&& r is Ok <==> has_name(names_view(names@), n@)
                &&& r matches Ok(s) ==> s@ == n@
                &&& r matches Err(e) ==> e == ConvertError::SheetNotFound(n)
            },
            None => {
                &&& r is Ok <==> names@.len() > 0
                &&& r matches Ok(s) ==> s@ == names@[0]@
                &&& r matches Err(e) ==> e == ConvertError::NoSheets
            },
        },
{
    match requested {
        Some(n) => match find_sheet(names, &n) {
            Some(_) => Ok(n),
            None => Err(ConvertError::SheetNotFound(n)),
        },
        None => {
            if names.len() == 0 {
                Err(ConvertError::NoSheets)
            } else {
                Ok(names[0].clone())
            }
        },
    }
}

/// A workbook held in memory: sheet names in declared order, each with its
/// decoded sheet.
pub struct Workbook {
    names: Vec<String>,
    sheets: Vec<Sheet>,
}

impl Workbook {
    /// The sheet names, in declared order.
    pub closed spec fn names_spec(&self) -> Seq<Seq<char>> {
        names_view(self.names@)
    }

    /// The sheets, in the order of their names.
    pub closed spec fn sheets_spec(&self) -> Seq<Sheet> {
        self.sheets@
    }

    #[verifier::type_invariant]
    closed spec fn paired(&self) -> bool {
        self.names@.len() == self.sheets@.len()
    }

    /// A workbook with no sheet.
    pub fn new() -> (r: Workbook)
        ensures
            r.names_spec().len() == 0,
            r.sheets_spec().len() == 0,
    {
        Workbook { names: Vec::new(), sheets: Vec::new() }
    }

    /// The workbook with a sheet appended under `name`, after those already
    /// declared.
    pub fn with_sheet(self, name: String, sheet: Sheet) -> (r: Workbook)
        ensures
            r.names_spec() == self.names_spec().push(name@),
            r.sheets_spec() == self.sheets_spec().push(sheet),
    {
        proof {
            use_type_invariant(&self);
        }
        let ghost before = names_view(self.names@);
        let Workbook { mut names, mut sheets } = self;
        names.push(name);
        sheets.push(sheet);
        proof {
            assert(names_view(names@) =~= before.push(name@));
        }
        Workbook { names, sheets }
    }

    /// The sheet names, in declared order.
    pub fn sheet_names(&self) -> (r: &Vec<String>)
        ensures
            names_view(r@) == self.names_spec(),
    {
        &self.names
    }

    /// The target sheet: the first one named `requested` when a name is given,
    /// else the first declared sheet. Fails exactly as `resolve_sheet_name` does.
    pub fn select_sheet(&self, requested: Option<String>) -> (r: Result<&Sheet, ConvertError>)
        ensures
            match requested {
                Some(n) => {
                    &&& r is Ok <==> has_name(self.names_spec(), n@)
                    &&& r matches Ok(s) ==> exists|i: int|
                        first_position(self.names_spec(), n@, i) && *s == #[trigger] self.sheets_spec()[i]
                    &&& r matches Err(e) ==> e == ConvertError::SheetNotFound(n)
                },
                None => {
                    &&& r is Ok <==> self.names_spec().len() > 0
                    &&& r matches Ok(s) ==> *s == self.sheets_spec()[0]
                    &&& r matches Err(e) ==> e == ConvertError::NoSheets
                },
            },
    {
        proof {
            use_type_invariant(self);
        }
        let name = match resolve_sheet_name(&self.names, requested) {
            Ok(name) => name,
            Err(e) => {
                return Err(e);
            },
        };
        match find_sheet(&self.names, &name) {
            Some(i) => {
                proof {
                    assert(first_position(self.names_spec(), name@, i as int));
                    assert(self.sheets_spec()[i as int] == self.sheets@[i as int]);
                    if requested is None {
                        assert(self.names_spec()[0] == name@);
                        if i > 0 {
                            assert(self.names_spec()[0] != name@);
                        }
                    }
                }
                Ok(&self.sheets[i])
            },
            None => {
                proof {
                    if requested is None {
                        assert(self.names_spec()[0] == name@);
                    }
                }
                Err(ConvertError::SheetNotFound(name))
            },
        }
    }
}

} // verus!
