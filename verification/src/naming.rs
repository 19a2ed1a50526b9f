//! Type and container names for builder structs.
//!
//! A builder's struct name is `<ObjectName><Method?>Builder<Ordinal?>`: the
//! method segment is present only when the builder is bound to an operation,
//! and the ordinal suffix only when the builder's path ordinal is positive.

use vstd::prelude::*;
use vstd::string::StringExecFns;

use crate::deriver::{ApiObjectBuilder, ApiObjectBuilderModel};
use crate::model::method_name;

verus! {

/// The decimal digit character for `d`.
pub open spec fn digit_char(d: nat) -> char
    recommends
        d < 10,
{
    if d == 0 {
        '0'
    } else if d == 1 {
        '1'
    } else if d == 2 {
        '2'
    } else if d == 3 {
        '3'
    } else if d == 4 {
        '4'
    } else if d == 5 {
        '5'
    } else if d == 6 {
        '6'
    } else if d == 7 {
        '7'
    } else if d == 8 {
        '8'
    } else {
        '9'
    }
}

/// The decimal rendering of `n`, most significant digit first, without
/// leading zeros (a single `0` for zero).
pub open spec fn dec_digits(n: nat) -> Seq<char>
    decreases n,
{
    if n < 10 {
        seq![digit_char(n)]
    } else {
        dec_digits(n / 10) + seq![digit_char(n % 10)]
    }
}

/// The one-character string for the decimal digit `d`.
fn digit_str(d: usize) -> (r: String)
    requires
        d < 10,
    ensures
        r@ == seq![digit_char(d as nat)],
{
    let r: String = if d == 0 {
        proof {
            reveal_strlit("0");
        }
        "0".to_owned()
    } else if d == 1 {
        proof {
            reveal_strlit("1");
        }
        "1".to_owned()
    } else if d == 2 {
        proof {
            reveal_strlit("2");
        }
        "2".to_owned()
    } else if d == 3 {
        proof {
            reveal_strlit("3");
        }
        "3".to_owned()
    } else if d == 4 {
        proof {
            reveal_strlit("4");
        }
        "4".to_owned()
    } else if d == 5 {
        proof {
            reveal_strlit("5");
        }
        "5".to_owned()
    } else if d == 6 {
        proof {
            reveal_strlit("6");
        }
        "6".to_owned()
    } else if d == 7 {
        proof {
            reveal_strlit("7");
        }
        "7".to_owned()
    } else if d == 8 {
        proof {
            reveal_strlit("8");
        }
        "8".to_owned()
    } else {
        proof {
            reveal_strlit("9");
        }
        "9".to_owned()
    };
    proof {
        assert(r@ =~= seq![digit_char(d as nat)]);
    }
    r
}

/// Renders `n` in decimal.
pub fn dec_str(n: usize) -> (r: String)
    ensures
        r@ == dec_digits(n as nat),
    decreases n,
{
    if n < 10 {
        digit_str(n)
    } else {
        proof {
            assert(n / 10 < n && n / 10 >= 1) by (nonlinear_arith)
                requires
                    n >= 10,
            ;
        }
        let mut s = dec_str(n / 10);
        let d = digit_str(n % 10);
        s.append(d.as_str());
        proof {
            assert(s@ =~= dec_digits(n as nat));
        }
        s
    }
}

/// The struct name of a builder.
pub open spec fn builder_name(b: ApiObjectBuilderModel) -> Seq<char> {
    b.object + (match b.method {
        Some(m) => method_name(m),
        None => Seq::empty(),
    }) + "Builder"@ + (if b.idx > 0 {
        dec_digits(b.idx as nat)
    } else {
        Seq::empty()
    })
}

/// The struct name of a builder's container.
pub open spec fn container_name(b: ApiObjectBuilderModel) -> Seq<char> {
    builder_name(b) + "Container"@
}

impl ApiObjectBuilder {
    /// Write this builder's name into the given sink.
    pub fn write_name(&self, f: &mut String)
        ensures
            final(f)@ == old(f)@ + builder_name(self@),
    {
        f.append(self.object.as_str());
        if let Some(method) = self.method {
            f.append(method.as_str());
        }
        f.append("Builder");
        if self.idx > 0 {
            let d = dec_str(self.idx);
            f.append(d.as_str());
        }
        proof {
            assert(f@ =~= old(f)@ + builder_name(self@));
        }
    }

    /// Write this builder's container name into the given sink.
    pub fn write_container_name(&self, f: &mut String)
        ensures
            final(f)@ == old(f)@ + container_name(self@),
    {
        self.write_name(f);
        f.append("Container");
        proof {
            assert(f@ =~= old(f)@ + container_name(self@));
        }
    }
}

} // verus!
