use vstd::prelude::*;

verus! {

/// The decimal digit character for `d` (`d < 10`).
pub open spec fn digito(d: nat) -> char {
    (48 + d) as char
}

/// The decimal numeral of `n`, most significant digit first, without leading zeros.
pub open spec fn decimal(n: nat) -> Seq<char>
    decreases n,
{
    if n < 10 {
        seq![digito(n)]
    } else {
        decimal(n / 10).push(digito(n % 10))
    }
}

/// The number a string of decimal digits stands for, reading the most
/// significant digit first.
pub open spec fn valor_decimal(s: Seq<char>) -> int
    decreases s.len(),
{
    if s.len() == 0 {
        0
    } else {
        valor_decimal(s.drop_last()) * 10 + (s.last() as int - 48)
    }
}

/// Every character of `s` is one of `0` to `9`.
pub open spec fn so_digitos(s: Seq<char>) -> bool {
    forall|i: int| 0 <= i < s.len() ==> '0' <= #[trigger] s[i] <= '9'
}

/// `s` is a numeral as Rust writes one: at least one digit, and no leading
/// zero unless the numeral is `0` itself.
pub open spec fn numeral_canonico(s: Seq<char>) -> bool {
    &&& s.len() >= 1
    &&& so_digitos(s)
    &&& s[0] == '0' ==> s.len() == 1
}

/// The numeral of `n` is a canonical decimal numeral that reads back to `n`:
/// it is the one way of writing `n` in base ten.
pub proof fn lei_decimal_le_de_volta(n: nat)
    ensures
        numeral_canonico(decimal(n)),
        valor_decimal(decimal(n)) == n,
        n > 0 ==> decimal(n)[0] != '0',
    decreases n,
{
    if n < 10 {
        assert(decimal(n) == seq![digito(n)]);
        assert(seq![digito(n)].drop_last() =~= Seq::<char>::empty());
        assert(digito(n) as int == 48 + n);
        assert(valor_decimal(Seq::<char>::empty()) == 0);
        assert(valor_decimal(decimal(n)) == valor_decimal(Seq::<char>::empty()) * 10 + (digito(n) as int - 48));
    } else {
        lei_decimal_le_de_volta(n / 10);
        let d = decimal(n / 10);
        let s = decimal(n);
        assert(s == d.push(digito(n % 10)));
        assert(s.drop_last() =~= d);
        assert(digito(n % 10) as int == 48 + n % 10);
        assert(valor_decimal(s) == valor_decimal(d) * 10 + (digito(n % 10) as int - 48));
        assert((n / 10) * 10 + n % 10 == n) by (nonlinear_arith);
        assert(s[0] == d[0]);
        assert forall|i: int| 0 <= i < s.len() implies '0' <= #[trigger] s[i] <= '9' by {
            if i < d.len() {
                assert(s[i] == d[i]);
            }
        }
    }
}

/// The one-character text of the digit `d`.
fn texto_digito(d: u32) -> (r: &'static str)
    requires
        d < 10,
    ensures
        r@ == seq![digito(d as nat)],
{
    if d == 0 {
        proof { reveal_strlit("0"); }
        "0"
    } else if d == 1 {
        proof { reveal_strlit("1"); }
        "1"
    } else if d == 2 {
        proof { reveal_strlit("2"); }
        "2"
    } else if d == 3 {
        proof { reveal_strlit("3"); }
        "3"
    } else if d == 4 {
        proof { reveal_strlit("4"); }
        "4"
    } else if d == 5 {
        proof { reveal_strlit("5"); }
        "5"
    } else if d == 6 {
        proof { reveal_strlit("6"); }
        "6"
    } else if d == 7 {
        proof { reveal_strlit("7"); }
        "7"
    } else if d == 8 {
        proof { reveal_strlit("8"); }
        "8"
    } else {
        proof { reveal_strlit("9"); }
        "9"
    }
}

/// Appends the decimal numeral of `n` to `s`.
pub fn escrever_decimal(s: &mut String, n: u32)
    ensures
        final(s)@ == old(s)@ + decimal(n as nat),
    decreases n,
{
    if n >= 10 {
        escrever_decimal(s, n / 10);
    }
    let digito_final = texto_digito(n % 10);
    s.append(digito_final);
}

/// The decimal numeral of `n` as a string, as `format!("{}", n)` writes it.
pub fn numero_para_texto(n: u32) -> (r: String)
    ensures
        r@ == decimal(n as nat),
{
    let mut s = String::new();
    escrever_decimal(&mut s, n);
    s
}

} // verus!
