//! The major diagnostic categories, their cascade order, codes and pseudo-groups.

use vstd::prelude::*;

use crate::codes::push_char;

verus! {

/// Number of major categories.
pub const CATEGORY_COUNT: usize = 26;

/// A major diagnostic category.
#[derive(PartialEq, Eq, Structural, Clone, Copy, Debug)]
pub enum Category {
    MdcA,
    MdcB,
    MdcC,
    MdcD,
    MdcE,
    MdcF,
    MdcG,
    MdcH,
    MdcI,
    MdcJ,
    MdcK,
    MdcL,
    MdcM,
    MdcN,
    MdcO,
    MdcP,
    MdcQ,
    MdcR,
    MdcS,
    MdcT,
    MdcU,
    MdcV,
    MdcW,
    MdcX,
    MdcY,
    MdcZ,
}

/// The category tried at position `i` of the cascade: pre-classification first,
/// then neonates, then HIV, then multiple trauma, then the others in letter order.
pub open spec fn spec_cascade_at(i: int) -> Category {
    if i == 0 {
        Category::MdcA
    } else if i == 1 {
        Category::MdcP
    } else if i == 2 {
        Category::MdcY
    } else if i == 3 {
        Category::MdcZ
    } else if i == 4 {
        Category::MdcB
    } else if i == 5 {
        Category::MdcC
    } else if i == 6 {
        Category::MdcD
    } else if i == 7 {
        Category::MdcE
    } else if i == 8 {
        Category::MdcF
    } else if i == 9 {
        Category::MdcG
    } else if i == 10 {
        Category::MdcH
    } else if i == 11 {
        Category::MdcI
    } else if i == 12 {
        Category::MdcJ
    } else if i == 13 {
        Category::MdcK
    } else if i == 14 {
        Category::MdcL
    } else if i == 15 {
        Category::MdcM
    } else if i == 16 {
        Category::MdcN
    } else if i == 17 {
        Category::MdcO
    } else if i == 18 {
        Category::MdcQ
    } else if i == 19 {
        Category::MdcR
    } else if i == 20 {
        Category::MdcS
    } else if i == 21 {
        Category::MdcT
    } else if i == 22 {
        Category::MdcU
    } else if i == 23 {
        Category::MdcV
    } else if i == 24 {
        Category::MdcW
    } else {
        Category::MdcX
    }
}

pub fn cascade_at(i: usize) -> (r: Category)
    ensures
        r == spec_cascade_at(i as int),
{
    if i == 0 {
        Category::MdcA
    } else if i == 1 {
        Category::MdcP
    } else if i == 2 {
        Category::MdcY
    } else if i == 3 {
        Category::MdcZ
    } else if i == 4 {
        Category::MdcB
    } else if i == 5 {
        Category::MdcC
    } else if i == 6 {
        Category::MdcD
    } else if i == 7 {
        Category::MdcE
    } else if i == 8 {
        Category::MdcF
    } else if i == 9 {
        Category::MdcG
    } else if i == 10 {
        Category::MdcH
    } else if i == 11 {
        Category::MdcI
    } else if i == 12 {
        Category::MdcJ
    } else if i == 13 {
        Category::MdcK
    } else if i == 14 {
        Category::MdcL
    } else if i == 15 {
        Category::MdcM
    } else if i == 16 {
        Category::MdcN
    } else if i == 17 {
        Category::MdcO
    } else if i == 18 {
        Category::MdcQ
    } else if i == 19 {
        Category::MdcR
    } else if i == 20 {
        Category::MdcS
    } else if i == 21 {
        Category::MdcT
    } else if i == 22 {
        Category::MdcU
    } else if i == 23 {
        Category::MdcV
    } else if i == 24 {
        Category::MdcW
    } else {
        Category::MdcX
    }
}

impl Category {
    /// Position of the category in the tables, in letter order.
    pub open spec fn spec_index(&self) -> int {
        match self {
            Category::MdcA => 0,
            Category::MdcB => 1,
            Category::MdcC => 2,
            Category::MdcD => 3,
            Category::MdcE => 4,
            Category::MdcF => 5,
            Category::MdcG => 6,
            Category::MdcH => 7,
            Category::MdcI => 8,
            Category::MdcJ => 9,
            Category::MdcK => 10,
            Category::MdcL => 11,
            Category::MdcM => 12,
            Category::MdcN => 13,
            Category::MdcO => 14,
            Category::MdcP => 15,
            Category::MdcQ => 16,
            Category::MdcR => 17,
            Category::MdcS => 18,
            Category::MdcT => 19,
            Category::MdcU => 20,
            Category::MdcV => 21,
            Category::MdcW => 22,
            Category::MdcX => 23,
            Category::MdcY => 24,
            Category::MdcZ => 25,
        }
    }

    pub fn index(&self) -> (r: usize)
        ensures
            r as int == self.spec_index(),
            r < CATEGORY_COUNT,
    {
        match self {
            Category::MdcA => 0,
            Category::MdcB => 1,
            Category::MdcC => 2,
            Category::MdcD => 3,
            Category::MdcE => 4,
            Category::MdcF => 5,
            Category::MdcG => 6,
            Category::MdcH => 7,
            Category::MdcI => 8,
            Category::MdcJ => 9,
            Category::MdcK => 10,
            Category::MdcL => 11,
            Category::MdcM => 12,
            Category::MdcN => 13,
            Category::MdcO => 14,
            Category::MdcP => 15,
            Category::MdcQ => 16,
            Category::MdcR => 17,
            Category::MdcS => 18,
            Category::MdcT => 19,
            Category::MdcU => 20,
            Category::MdcV => 21,
            Category::MdcW => 22,
            Category::MdcX => 23,
            Category::MdcY => 24,
            Category::MdcZ => 25,
        }
    }

    /// The category at a table position, in letter order.
    pub fn from_index(i: usize) -> (r: Option<Category>)
        ensures
            i < CATEGORY_COUNT <==> r is Some,
            r matches Some(c) ==> c.spec_index() == i as int,
    {
        if i == 0 {
            Some(Category::MdcA)
        } else if i == 1 {
            Some(Category::MdcB)
        } else if i == 2 {
            Some(Category::MdcC)
        } else if i == 3 {
            Some(Category::MdcD)
        } else if i == 4 {
            Some(Category::MdcE)
        } else if i == 5 {
            Some(Category::MdcF)
        } else if i == 6 {
            Some(Category::MdcG)
        } else if i == 7 {
            Some(Category::MdcH)
        } else if i == 8 {
            Some(Category::MdcI)
        } else if i == 9 {
            Some(Category::MdcJ)
        } else if i == 10 {
            Some(Category::MdcK)
        } else if i == 11 {
            Some(Category::MdcL)
        } else if i == 12 {
            Some(Category::MdcM)
        } else if i == 13 {
            Some(Category::MdcN)
        } else if i == 14 {
            Some(Category::MdcO)
        } else if i == 15 {
            Some(Category::MdcP)
        } else if i == 16 {
            Some(Category::MdcQ)
        } else if i == 17 {
            Some(Category::MdcR)
        } else if i == 18 {
            Some(Category::MdcS)
        } else if i == 19 {
            Some(Category::MdcT)
        } else if i == 20 {
            Some(Category::MdcU)
        } else if i == 21 {
            Some(Category::MdcV)
        } else if i == 22 {
            Some(Category::MdcW)
        } else if i == 23 {
            Some(Category::MdcX)
        } else if i == 24 {
            Some(Category::MdcY)
        } else if i == 25 {
            Some(Category::MdcZ)
        } else {
            None
        }
    }

    /// The category's letter.
    pub open spec fn spec_letter(&self) -> char {
        match self {
            Category::MdcA => 'A',
            Category::MdcB => 'B',
            Category::MdcC => 'C',
            Category::MdcD => 'D',
            Category::MdcE => 'E',
            Category::MdcF => 'F',
            Category::MdcG => 'G',
            Category::MdcH => 'H',
            Category::MdcI => 'I',
            Category::MdcJ => 'J',
            Category::MdcK => 'K',
            Category::MdcL => 'L',
            Category::MdcM => 'M',
            Category::MdcN => 'N',
            Category::MdcO => 'O',
            Category::MdcP => 'P',
            Category::MdcQ => 'Q',
            Category::MdcR => 'R',
            Category::MdcS => 'S',
            Category::MdcT => 'T',
            Category::MdcU => 'U',
            Category::MdcV => 'V',
            Category::MdcW => 'W',
            Category::MdcX => 'X',
            Category::MdcY => 'Y',
            Category::MdcZ => 'Z',
        }
    }

    /// The category's code, `MDC` followed by its letter.
    pub open spec fn spec_code(&self) -> Seq<char> {
        seq!['M', 'D', 'C', self.spec_letter()]
    }

    /// The letter that starts the category's pseudo-group, where it has one
    /// (the pseudo-group of `MDCD` starts with `S`).
    pub open spec fn pseudo_letter(&self) -> Option<char> {
        match self {
            Category::MdcD => Some('S'),
            Category::MdcS => None,
            Category::MdcT => None,
            Category::MdcX => None,
            Category::MdcY => None,
            _ => Some(self.spec_letter()),
        }
    }

    /// The pseudo-group that a medical group of the category with a real
    /// procedure is moved to, where the category has one.
    pub open spec fn spec_pseudo_group(&self) -> Option<Seq<char>> {
        match self.pseudo_letter() {
            Some(l) => Some(seq![l, 'Q', 'Y']),
            None => None,
        }
    }

    pub fn letter(&self) -> (r: char)
        ensures
            r == self.spec_letter(),
    {
        match self {
            Category::MdcA => 'A',
            Category::MdcB => 'B',
            Category::MdcC => 'C',
            Category::MdcD => 'D',
            Category::MdcE => 'E',
            Category::MdcF => 'F',
            Category::MdcG => 'G',
            Category::MdcH => 'H',
            Category::MdcI => 'I',
            Category::MdcJ => 'J',
            Category::MdcK => 'K',
            Category::MdcL => 'L',
            Category::MdcM => 'M',
            Category::MdcN => 'N',
            Category::MdcO => 'O',
            Category::MdcP => 'P',
            Category::MdcQ => 'Q',
            Category::MdcR => 'R',
            Category::MdcS => 'S',
            Category::MdcT => 'T',
            Category::MdcU => 'U',
            Category::MdcV => 'V',
            Category::MdcW => 'W',
            Category::MdcX => 'X',
            Category::MdcY => 'Y',
            Category::MdcZ => 'Z',
        }
    }

    pub fn code(&self) -> (r: String)
        ensures
            r@ == self.spec_code(),
    {
        let mut r = String::new();
        push_char(&mut r, 'M');
        push_char(&mut r, 'D');
        push_char(&mut r, 'C');
        push_char(&mut r, self.letter());
        r
    }

    pub fn pseudo_group(&self) -> (r: Option<String>)
        ensures
            match r {
                Some(s) => self.spec_pseudo_group() == Some(s@),
                None => self.spec_pseudo_group() is None,
            },
    {
        let l = match self {
            Category::MdcD => 'S',
            Category::MdcS => {
                return None;
            },
            Category::MdcT => {
                return None;
            },
            Category::MdcX => {
                return None;
            },
            Category::MdcY => {
                return None;
            },
            _ => self.letter(),
        };
        let mut r = String::new();
        push_char(&mut r, l);
        push_char(&mut r, 'Q');
        push_char(&mut r, 'Y');
        Some(r)
    }
}

} // verus!
