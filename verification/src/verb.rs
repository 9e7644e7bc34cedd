//! The closed set of supported FTP commands.
use vstd::prelude::*;
use vstd::string::StringExecFns;

use crate::text::{str_eq, to_ascii_upper, upper_char, upper_chars};

verus! {

/// Available FTP commands.
#[derive(Debug, PartialEq, Eq, Structural, Clone, Copy)]
pub enum Verb {
    USER,
    PASS,
    ACCT,
    TYPE,
    STRU,
    MODE,
    PWD,
    XPWD,
    CWD,
    XCWD,
    CDUP,
    XCUP,
    PASV,
    PORT,
    REST,
    RETR,
    STOR,
    APPE,
    STOU,
    ALLO,
    LIST,
    NLST,
    MKD,
    XMKD,
    RMD,
    XRMD,
    DELE,
    RNFR,
    RNTO,
    SYST,
    STAT,
    HELP,
    NOOP,
    QUIT,
}

/// The token that names a verb on the wire.
pub open spec fn verb_name(v: Verb) -> Seq<char> {
    match v {
        Verb::USER => "USER"@,
        Verb::PASS => "PASS"@,
        Verb::ACCT => "ACCT"@,
        Verb::TYPE => "TYPE"@,
        Verb::STRU => "STRU"@,
        Verb::MODE => "MODE"@,
        Verb::PWD => "PWD"@,
        Verb::XPWD => "XPWD"@,
        Verb::CWD => "CWD"@,
        Verb::XCWD => "XCWD"@,
        Verb::CDUP => "CDUP"@,
        Verb::XCUP => "XCUP"@,
        Verb::PASV => "PASV"@,
        Verb::PORT => "PORT"@,
        Verb::REST => "REST"@,
        Verb::RETR => "RETR"@,
        Verb::STOR => "STOR"@,
        Verb::APPE => "APPE"@,
        Verb::STOU => "STOU"@,
        Verb::ALLO => "ALLO"@,
        Verb::LIST => "LIST"@,
        Verb::NLST => "NLST"@,
        Verb::MKD => "MKD"@,
        Verb::XMKD => "XMKD"@,
        Verb::RMD => "RMD"@,
        Verb::XRMD => "XRMD"@,
        Verb::DELE => "DELE"@,
        Verb::RNFR => "RNFR"@,
        Verb::RNTO => "RNTO"@,
        Verb::SYST => "SYST"@,
        Verb::STAT => "STAT"@,
        Verb::HELP => "HELP"@,
        Verb::NOOP => "NOOP"@,
        Verb::QUIT => "QUIT"@,
    }
}

/// The verb whose name equals an already upper-cased token, if any.
pub open spec fn verb_of_upper(u: Seq<char>) -> Option<Verb> {
    if u == "USER"@ {
        Some(Verb::USER)
    } else if u == "PASS"@ {
        Some(Verb::PASS)
    } else if u == "ACCT"@ {
        Some(Verb::ACCT)
    } else if u == "TYPE"@ {
        Some(Verb::TYPE)
    } else if u == "STRU"@ {
        Some(Verb::STRU)
    } else if u == "MODE"@ {
        Some(Verb::MODE)
    } else if u == "PWD"@ {
        Some(Verb::PWD)
    } else if u == "XPWD"@ {
        Some(Verb::XPWD)
    } else if u == "CWD"@ {
        Some(Verb::CWD)
    } else if u == "XCWD"@ {
        Some(Verb::XCWD)
    } else if u == "CDUP"@ {
        Some(Verb::CDUP)
    } else if u == "XCUP"@ {
        Some(Verb::XCUP)
    } else if u == "PASV"@ {
        Some(Verb::PASV)
    } else if u == "PORT"@ {
        Some(Verb::PORT)
    } else if u == "REST"@ {
        Some(Verb::REST)
    } else if u == "RETR"@ {
        Some(Verb::RETR)
    } else if u == "STOR"@ {
        Some(Verb::STOR)
    } else if u == "APPE"@ {
        Some(Verb::APPE)
    } else if u == "STOU"@ {
        Some(Verb::STOU)
    } else if u == "ALLO"@ {
        Some(Verb::ALLO)
    } else if u == "LIST"@ {
        Some(Verb::LIST)
    } else if u == "NLST"@ {
        Some(Verb::NLST)
    } else if u == "MKD"@ {
        Some(Verb::MKD)
    } else if u == "XMKD"@ {
        Some(Verb::XMKD)
    } else if u == "RMD"@ {
        Some(Verb::RMD)
    } else if u == "XRMD"@ {
        Some(Verb::XRMD)
    } else if u == "DELE"@ {
        Some(Verb::DELE)
    } else if u == "RNFR"@ {
        Some(Verb::RNFR)
    } else if u == "RNTO"@ {
        Some(Verb::RNTO)
    } else if u == "SYST"@ {
        Some(Verb::SYST)
    } else if u == "STAT"@ {
        Some(Verb::STAT)
    } else if u == "HELP"@ {
        Some(Verb::HELP)
    } else if u == "NOOP"@ {
        Some(Verb::NOOP)
    } else if u == "QUIT"@ {
        Some(Verb::QUIT)
    } else {
        None
    }
}

/// The verb named by a token, read without regard to case. Tokens with
/// characters outside ASCII name no verb.
pub open spec fn spec_verb_of(t: Seq<char>) -> Option<Verb> {
    if !vstd::utf8::is_ascii_chars(t) {
        None
    } else {
        verb_of_upper(upper_chars(t))
    }
}


/// Every verb's name is one or more capital letters.
pub proof fn lemma_verb_names_wf(v: Verb)
    ensures
        verb_name(v).len() >= 1,
        forall|i: int| 0 <= i < verb_name(v).len() ==> 'A' <= #[trigger] verb_name(v)[i] <= 'Z',
{
    reveal_strlit("USER");
    reveal_strlit("PASS");
    reveal_strlit("ACCT");
    reveal_strlit("TYPE");
    reveal_strlit("STRU");
    reveal_strlit("MODE");
    reveal_strlit("PWD");
    reveal_strlit("XPWD");
    reveal_strlit("CWD");
    reveal_strlit("XCWD");
    reveal_strlit("CDUP");
    reveal_strlit("XCUP");
    reveal_strlit("PASV");
    reveal_strlit("PORT");
    reveal_strlit("REST");
    reveal_strlit("RETR");
    reveal_strlit("STOR");
    reveal_strlit("APPE");
    reveal_strlit("STOU");
    reveal_strlit("ALLO");
    reveal_strlit("LIST");
    reveal_strlit("NLST");
    reveal_strlit("MKD");
    reveal_strlit("XMKD");
    reveal_strlit("RMD");
    reveal_strlit("XRMD");
    reveal_strlit("DELE");
    reveal_strlit("RNFR");
    reveal_strlit("RNTO");
    reveal_strlit("SYST");
    reveal_strlit("STAT");
    reveal_strlit("HELP");
    reveal_strlit("NOOP");
    reveal_strlit("QUIT");
}

/// A verb's own name, in any casing, parses back to the verb.
#[verifier::rlimit(100)]
pub proof fn lemma_verb_name_parses(t: Seq<char>, v: Verb)
    requires
        upper_chars(t) == verb_name(v),
    ensures
        spec_verb_of(t) == Some(v),
{
    reveal_strlit("USER");
    reveal_strlit("PASS");
    reveal_strlit("ACCT");
    reveal_strlit("TYPE");
    reveal_strlit("STRU");
    reveal_strlit("MODE");
    reveal_strlit("PWD");
    reveal_strlit("XPWD");
    reveal_strlit("CWD");
    reveal_strlit("XCWD");
    reveal_strlit("CDUP");
    reveal_strlit("XCUP");
    reveal_strlit("PASV");
    reveal_strlit("PORT");
    reveal_strlit("REST");
    reveal_strlit("RETR");
    reveal_strlit("STOR");
    reveal_strlit("APPE");
    reveal_strlit("STOU");
    reveal_strlit("ALLO");
    reveal_strlit("LIST");
    reveal_strlit("NLST");
    reveal_strlit("MKD");
    reveal_strlit("XMKD");
    reveal_strlit("RMD");
    reveal_strlit("XRMD");
    reveal_strlit("DELE");
    reveal_strlit("RNFR");
    reveal_strlit("RNTO");
    reveal_strlit("SYST");
    reveal_strlit("STAT");
    reveal_strlit("HELP");
    reveal_strlit("NOOP");
    reveal_strlit("QUIT");
    lemma_verb_names_wf(v);
    assert(vstd::utf8::is_ascii_chars(t)) by {
        assert forall|i: int| 0 <= i < t.len() implies '\0' <= #[trigger] t[i] <= '\u{7f}' by {
            assert(upper_chars(t)[i] == upper_char(t[i]));
            assert('A' <= verb_name(v)[i] <= 'Z');
        }
    }
    assert("PASS"@[0] != "USER"@[0]);
    assert("ACCT"@[0] != "USER"@[0]);
    assert("ACCT"@[0] != "PASS"@[0]);
    assert("TYPE"@[0] != "USER"@[0]);
    assert("TYPE"@[0] != "PASS"@[0]);
    assert("TYPE"@[0] != "ACCT"@[0]);
    assert("STRU"@[0] != "USER"@[0]);
    assert("STRU"@[0] != "PASS"@[0]);
    assert("STRU"@[0] != "ACCT"@[0]);
    assert("STRU"@[0] != "TYPE"@[0]);
    assert("MODE"@[0] != "USER"@[0]);
    assert("MODE"@[0] != "PASS"@[0]);
    assert("MODE"@[0] != "ACCT"@[0]);
    assert("MODE"@[0] != "TYPE"@[0]);
    assert("MODE"@[0] != "STRU"@[0]);
    assert("XPWD"@[0] != "USER"@[0]);
    assert("XPWD"@[0] != "PASS"@[0]);
    assert("XPWD"@[0] != "ACCT"@[0]);
    assert("XPWD"@[0] != "TYPE"@[0]);
    assert("XPWD"@[0] != "STRU"@[0]);
    assert("XPWD"@[0] != "MODE"@[0]);
    assert("CWD"@[0] != "PWD"@[0]);
    assert("XCWD"@[0] != "USER"@[0]);
    assert("XCWD"@[0] != "PASS"@[0]);
    assert("XCWD"@[0] != "ACCT"@[0]);
    assert("XCWD"@[0] != "TYPE"@[0]);
    assert("XCWD"@[0] != "STRU"@[0]);
    assert("XCWD"@[0] != "MODE"@[0]);
    assert("XCWD"@[1] != "XPWD"@[1]);
    assert("CDUP"@[0] != "USER"@[0]);
    assert("CDUP"@[0] != "PASS"@[0]);
    assert("CDUP"@[0] != "ACCT"@[0]);
    assert("CDUP"@[0] != "TYPE"@[0]);
    assert("CDUP"@[0] != "STRU"@[0]);
    assert("CDUP"@[0] != "MODE"@[0]);
    assert("CDUP"@[0] != "XPWD"@[0]);
    assert("CDUP"@[0] != "XCWD"@[0]);
    assert("XCUP"@[0] != "USER"@[0]);
    assert("XCUP"@[0] != "PASS"@[0]);
    assert("XCUP"@[0] != "ACCT"@[0]);
    assert("XCUP"@[0] != "TYPE"@[0]);
    assert("XCUP"@[0] != "STRU"@[0]);
    assert("XCUP"@[0] != "MODE"@[0]);
    assert("XCUP"@[1] != "XPWD"@[1]);
    assert("XCUP"@[2] != "XCWD"@[2]);
    assert("XCUP"@[0] != "CDUP"@[0]);
    assert("PASV"@[0] != "USER"@[0]);
    assert("PASV"@[3] != "PASS"@[3]);
    assert("PASV"@[0] != "ACCT"@[0]);
    assert("PASV"@[0] != "TYPE"@[0]);
    assert("PASV"@[0] != "STRU"@[0]);
    assert("PASV"@[0] != "MODE"@[0]);
    assert("PASV"@[0] != "XPWD"@[0]);
    assert("PASV"@[0] != "XCWD"@[0]);
    assert("PASV"@[0] != "CDUP"@[0]);
    assert("PASV"@[0] != "XCUP"@[0]);
    assert("PORT"@[0] != "USER"@[0]);
    assert("PORT"@[1] != "PASS"@[1]);
    assert("PORT"@[0] != "ACCT"@[0]);
    assert("PORT"@[0] != "TYPE"@[0]);
    assert("PORT"@[0] != "STRU"@[0]);
    assert("PORT"@[0] != "MODE"@[0]);
    assert("PORT"@[0] != "XPWD"@[0]);
    assert("PORT"@[0] != "XCWD"@[0]);
    assert("PORT"@[0] != "CDUP"@[0]);
    assert("PORT"@[0] != "XCUP"@[0]);
    assert("PORT"@[1] != "PASV"@[1]);
    assert("REST"@[0] != "USER"@[0]);
    assert("REST"@[0] != "PASS"@[0]);
    assert("REST"@[0] != "ACCT"@[0]);
    assert("REST"@[0] != "TYPE"@[0]);
    assert("REST"@[0] != "STRU"@[0]);
    assert("REST"@[0] != "MODE"@[0]);
    assert("REST"@[0] != "XPWD"@[0]);
    assert("REST"@[0] != "XCWD"@[0]);
    assert("REST"@[0] != "CDUP"@[0]);
    assert("REST"@[0] != "XCUP"@[0]);
    assert("REST"@[0] != "PASV"@[0]);
    assert("REST"@[0] != "PORT"@[0]);
    assert("RETR"@[0] != "USER"@[0]);
    assert("RETR"@[0] != "PASS"@[0]);
    assert("RETR"@[0] != "ACCT"@[0]);
    assert("RETR"@[0] != "TYPE"@[0]);
    assert("RETR"@[0] != "STRU"@[0]);
    assert("RETR"@[0] != "MODE"@[0]);
    assert("RETR"@[0] != "XPWD"@[0]);
    assert("RETR"@[0] != "XCWD"@[0]);
    assert("RETR"@[0] != "CDUP"@[0]);
    assert("RETR"@[0] != "XCUP"@[0]);
    assert("RETR"@[0] != "PASV"@[0]);
    assert("RETR"@[0] != "PORT"@[0]);
    assert("RETR"@[2] != "REST"@[2]);
    assert("STOR"@[0] != "USER"@[0]);
    assert("STOR"@[0] != "PASS"@[0]);
    assert("STOR"@[0] != "ACCT"@[0]);
    assert("STOR"@[0] != "TYPE"@[0]);
    assert("STOR"@[2] != "STRU"@[2]);
    assert("STOR"@[0] != "MODE"@[0]);
    assert("STOR"@[0] != "XPWD"@[0]);
    assert("STOR"@[0] != "XCWD"@[0]);
    assert("STOR"@[0] != "CDUP"@[0]);
    assert("STOR"@[0] != "XCUP"@[0]);
    assert("STOR"@[0] != "PASV"@[0]);
    assert("STOR"@[0] != "PORT"@[0]);
    assert("STOR"@[0] != "REST"@[0]);
    assert("STOR"@[0] != "RETR"@[0]);
    assert("APPE"@[0] != "USER"@[0]);
    assert("APPE"@[0] != "PASS"@[0]);
    assert("APPE"@[1] != "ACCT"@[1]);
    assert("APPE"@[0] != "TYPE"@[0]);
    assert("APPE"@[0] != "STRU"@[0]);
    assert("APPE"@[0] != "MODE"@[0]);
    assert("APPE"@[0] != "XPWD"@[0]);
    assert("APPE"@[0] != "XCWD"@[0]);
    assert("APPE"@[0] != "CDUP"@[0]);
    assert("APPE"@[0] != "XCUP"@[0]);
    assert("APPE"@[0] != "PASV"@[0]);
    assert("APPE"@[0] != "PORT"@[0]);
    assert("APPE"@[0] != "REST"@[0]);
    assert("APPE"@[0] != "RETR"@[0]);
    assert("APPE"@[0] != "STOR"@[0]);
    assert("STOU"@[0] != "USER"@[0]);
    assert("STOU"@[0] != "PASS"@[0]);
    assert("STOU"@[0] != "ACCT"@[0]);
    assert("STOU"@[0] != "TYPE"@[0]);
    assert("STOU"@[2] != "STRU"@[2]);
    assert("STOU"@[0] != "MODE"@[0]);
    assert("STOU"@[0] != "XPWD"@[0]);
    assert("STOU"@[0] != "XCWD"@[0]);
    assert("STOU"@[0] != "CDUP"@[0]);
    assert("STOU"@[0] != "XCUP"@[0]);
    assert("STOU"@[0] != "PASV"@[0]);
    assert("STOU"@[0] != "PORT"@[0]);
    assert("STOU"@[0] != "REST"@[0]);
    assert("STOU"@[0] != "RETR"@[0]);
    assert("STOU"@[3] != "STOR"@[3]);
    assert("STOU"@[0] != "APPE"@[0]);
    assert("ALLO"@[0] != "USER"@[0]);
    assert("ALLO"@[0] != "PASS"@[0]);
    assert("ALLO"@[1] != "ACCT"@[1]);
    assert("ALLO"@[0] != "TYPE"@[0]);
    assert("ALLO"@[0] != "STRU"@[0]);
    assert("ALLO"@[0] != "MODE"@[0]);
    assert("ALLO"@[0] != "XPWD"@[0]);
    assert("ALLO"@[0] != "XCWD"@[0]);
    assert("ALLO"@[0] != "CDUP"@[0]);
    assert("ALLO"@[0] != "XCUP"@[0]);
    assert("ALLO"@[0] != "PASV"@[0]);
    assert("ALLO"@[0] != "PORT"@[0]);
    assert("ALLO"@[0] != "REST"@[0]);
    assert("ALLO"@[0] != "RETR"@[0]);
    assert("ALLO"@[0] != "STOR"@[0]);
    assert("ALLO"@[1] != "APPE"@[1]);
    assert("ALLO"@[0] != "STOU"@[0]);
    assert("LIST"@[0] != "USER"@[0]);
    assert("LIST"@[0] != "PASS"@[0]);
    assert("LIST"@[0] != "ACCT"@[0]);
    assert("LIST"@[0] != "TYPE"@[0]);
    assert("LIST"@[0] != "STRU"@[0]);
    assert("LIST"@[0] != "MODE"@[0]);
    assert("LIST"@[0] != "XPWD"@[0]);
    assert("LIST"@[0] != "XCWD"@[0]);
    assert("LIST"@[0] != "CDUP"@[0]);
    assert("LIST"@[0] != "XCUP"@[0]);
    assert("LIST"@[0] != "PASV"@[0]);
    assert("LIST"@[0] != "PORT"@[0]);
    assert("LIST"@[0] != "REST"@[0]);
    assert("LIST"@[0] != "RETR"@[0]);
    assert("LIST"@[0] != "STOR"@[0]);
    assert("LIST"@[0] != "APPE"@[0]);
    assert("LIST"@[0] != "STOU"@[0]);
    assert("LIST"@[0] != "ALLO"@[0]);
    assert("NLST"@[0] != "USER"@[0]);
    assert("NLST"@[0] != "PASS"@[0]);
    assert("NLST"@[0] != "ACCT"@[0]);
    assert("NLST"@[0] != "TYPE"@[0]);
    assert("NLST"@[0] != "STRU"@[0]);
    assert("NLST"@[0] != "MODE"@[0]);
    assert("NLST"@[0] != "XPWD"@[0]);
    assert("NLST"@[0] != "XCWD"@[0]);
    assert("NLST"@[0] != "CDUP"@[0]);
    assert("NLST"@[0] != "XCUP"@[0]);
    assert("NLST"@[0] != "PASV"@[0]);
    assert("NLST"@[0] != "PORT"@[0]);
    assert("NLST"@[0] != "REST"@[0]);
    assert("NLST"@[0] != "RETR"@[0]);
    assert("NLST"@[0] != "STOR"@[0]);
    assert("NLST"@[0] != "APPE"@[0]);
    assert("NLST"@[0] != "STOU"@[0]);
    assert("NLST"@[0] != "ALLO"@[0]);
    assert("NLST"@[0] != "LIST"@[0]);
    assert("MKD"@[0] != "PWD"@[0]);
    assert("MKD"@[0] != "CWD"@[0]);
    assert("XMKD"@[0] != "USER"@[0]);
    assert("XMKD"@[0] != "PASS"@[0]);
    assert("XMKD"@[0] != "ACCT"@[0]);
    assert("XMKD"@[0] != "TYPE"@[0]);
    assert("XMKD"@[0] != "STRU"@[0]);
    assert("XMKD"@[0] != "MODE"@[0]);
    assert("XMKD"@[1] != "XPWD"@[1]);
    assert("XMKD"@[1] != "XCWD"@[1]);
    assert("XMKD"@[0] != "CDUP"@[0]);
    assert("XMKD"@[1] != "XCUP"@[1]);
    assert("XMKD"@[0] != "PASV"@[0]);
    assert("XMKD"@[0] != "PORT"@[0]);
    assert("XMKD"@[0] != "REST"@[0]);
    assert("XMKD"@[0] != "RETR"@[0]);
    assert("XMKD"@[0] != "STOR"@[0]);
    assert("XMKD"@[0] != "APPE"@[0]);
    assert("XMKD"@[0] != "STOU"@[0]);
    assert("XMKD"@[0] != "ALLO"@[0]);
    assert("XMKD"@[0] != "LIST"@[0]);
    assert("XMKD"@[0] != "NLST"@[0]);
    assert("RMD"@[0] != "PWD"@[0]);
    assert("RMD"@[0] != "CWD"@[0]);
    assert("RMD"@[0] != "MKD"@[0]);
    assert("XRMD"@[0] != "USER"@[0]);
    assert("XRMD"@[0] != "PASS"@[0]);
    assert("XRMD"@[0] != "ACCT"@[0]);
    assert("XRMD"@[0] != "TYPE"@[0]);
    assert("XRMD"@[0] != "STRU"@[0]);
    assert("XRMD"@[0] != "MODE"@[0]);
    assert("XRMD"@[1] != "XPWD"@[1]);
    assert("XRMD"@[1] != "XCWD"@[1]);
    assert("XRMD"@[0] != "CDUP"@[0]);
    assert("XRMD"@[1] != "XCUP"@[1]);
    assert("XRMD"@[0] != "PASV"@[0]);
    assert("XRMD"@[0] != "PORT"@[0]);
    assert("XRMD"@[0] != "REST"@[0]);
    assert("XRMD"@[0] != "RETR"@[0]);
    assert("XRMD"@[0] != "STOR"@[0]);
    assert("XRMD"@[0] != "APPE"@[0]);
    assert("XRMD"@[0] != "STOU"@[0]);
    assert("XRMD"@[0] != "ALLO"@[0]);
    assert("XRMD"@[0] != "LIST"@[0]);
    assert("XRMD"@[0] != "NLST"@[0]);
    assert("XRMD"@[1] != "XMKD"@[1]);
    assert("DELE"@[0] != "USER"@[0]);
    assert("DELE"@[0] != "PASS"@[0]);
    assert("DELE"@[0] != "ACCT"@[0]);
    assert("DELE"@[0] != "TYPE"@[0]);
    assert("DELE"@[0] != "STRU"@[0]);
    assert("DELE"@[0] != "MODE"@[0]);
    assert("DELE"@[0] != "XPWD"@[0]);
    assert("DELE"@[0] != "XCWD"@[0]);
    assert("DELE"@[0] != "CDUP"@[0]);
    assert("DELE"@[0] != "XCUP"@[0]);
    assert("DELE"@[0] != "PASV"@[0]);
    assert("DELE"@[0] != "PORT"@[0]);
    assert("DELE"@[0] != "REST"@[0]);
    assert("DELE"@[0] != "RETR"@[0]);
    assert("DELE"@[0] != "STOR"@[0]);
    assert("DELE"@[0] != "APPE"@[0]);
    assert("DELE"@[0] != "STOU"@[0]);
    assert("DELE"@[0] != "ALLO"@[0]);
    assert("DELE"@[0] != "LIST"@[0]);
    assert("DELE"@[0] != "NLST"@[0]);
    assert("DELE"@[0] != "XMKD"@[0]);
    assert("DELE"@[0] != "XRMD"@[0]);
    assert("RNFR"@[0] != "USER"@[0]);
    assert("RNFR"@[0] != "PASS"@[0]);
    assert("RNFR"@[0] != "ACCT"@[0]);
    assert("RNFR"@[0] != "TYPE"@[0]);
    assert("RNFR"@[0] != "STRU"@[0]);
    assert("RNFR"@[0] != "MODE"@[0]);
    assert("RNFR"@[0] != "XPWD"@[0]);
    assert("RNFR"@[0] != "XCWD"@[0]);
    assert("RNFR"@[0] != "CDUP"@[0]);
    assert("RNFR"@[0] != "XCUP"@[0]);
    assert("RNFR"@[0] != "PASV"@[0]);
    assert("RNFR"@[0] != "PORT"@[0]);
    assert("RNFR"@[1] != "REST"@[1]);
    assert("RNFR"@[1] != "RETR"@[1]);
    assert("RNFR"@[0] != "STOR"@[0]);
    assert("RNFR"@[0] != "APPE"@[0]);
    assert("RNFR"@[0] != "STOU"@[0]);
    assert("RNFR"@[0] != "ALLO"@[0]);
    assert("RNFR"@[0] != "LIST"@[0]);
    assert("RNFR"@[0] != "NLST"@[0]);
    assert("RNFR"@[0] != "XMKD"@[0]);
    assert("RNFR"@[0] != "XRMD"@[0]);
    assert("RNFR"@[0] != "DELE"@[0]);
    assert("RNTO"@[0] != "USER"@[0]);
    assert("RNTO"@[0] != "PASS"@[0]);
    assert("RNTO"@[0] != "ACCT"@[0]);
    assert("RNTO"@[0] != "TYPE"@[0]);
    assert("RNTO"@[0] != "STRU"@[0]);
    assert("RNTO"@[0] != "MODE"@[0]);
    assert("RNTO"@[0] != "XPWD"@[0]);
    assert("RNTO"@[0] != "XCWD"@[0]);
    assert("RNTO"@[0] != "CDUP"@[0]);
    assert("RNTO"@[0] != "XCUP"@[0]);
    assert("RNTO"@[0] != "PASV"@[0]);
    assert("RNTO"@[0] != "PORT"@[0]);
    assert("RNTO"@[1] != "REST"@[1]);
    assert("RNTO"@[1] != "RETR"@[1]);
    assert("RNTO"@[0] != "STOR"@[0]);
    assert("RNTO"@[0] != "APPE"@[0]);
    assert("RNTO"@[0] != "STOU"@[0]);
    assert("RNTO"@[0] != "ALLO"@[0]);
    assert("RNTO"@[0] != "LIST"@[0]);
    assert("RNTO"@[0] != "NLST"@[0]);
    assert("RNTO"@[0] != "XMKD"@[0]);
    assert("RNTO"@[0] != "XRMD"@[0]);
    assert("RNTO"@[0] != "DELE"@[0]);
    assert("RNTO"@[2] != "RNFR"@[2]);
    assert("SYST"@[0] != "USER"@[0]);
    assert("SYST"@[0] != "PASS"@[0]);
    assert("SYST"@[0] != "ACCT"@[0]);
    assert("SYST"@[0] != "TYPE"@[0]);
    assert("SYST"@[1] != "STRU"@[1]);
    assert("SYST"@[0] != "MODE"@[0]);
    assert("SYST"@[0] != "XPWD"@[0]);
    assert("SYST"@[0] != "XCWD"@[0]);
    assert("SYST"@[0] != "CDUP"@[0]);
    assert("SYST"@[0] != "XCUP"@[0]);
    assert("SYST"@[0] != "PASV"@[0]);
    assert("SYST"@[0] != "PORT"@[0]);
    assert("SYST"@[0] != "REST"@[0]);
    assert("SYST"@[0] != "RETR"@[0]);
    assert("SYST"@[1] != "STOR"@[1]);
    assert("SYST"@[0] != "APPE"@[0]);
    assert("SYST"@[1] != "STOU"@[1]);
    assert("SYST"@[0] != "ALLO"@[0]);
    assert("SYST"@[0] != "LIST"@[0]);
    assert("SYST"@[0] != "NLST"@[0]);
    assert("SYST"@[0] != "XMKD"@[0]);
    assert("SYST"@[0] != "XRMD"@[0]);
    assert("SYST"@[0] != "DELE"@[0]);
    assert("SYST"@[0] != "RNFR"@[0]);
    assert("SYST"@[0] != "RNTO"@[0]);
    assert("STAT"@[0] != "USER"@[0]);
    assert("STAT"@[0] != "PASS"@[0]);
    assert("STAT"@[0] != "ACCT"@[0]);
    assert("STAT"@[0] != "TYPE"@[0]);
    assert("STAT"@[2] != "STRU"@[2]);
    assert("STAT"@[0] != "MODE"@[0]);
    assert("STAT"@[0] != "XPWD"@[0]);
    assert("STAT"@[0] != "XCWD"@[0]);
    assert("STAT"@[0] != "CDUP"@[0]);
    assert("STAT"@[0] != "XCUP"@[0]);
    assert("STAT"@[0] != "PASV"@[0]);
    assert("STAT"@[0] != "PORT"@[0]);
    assert("STAT"@[0] != "REST"@[0]);
    assert("STAT"@[0] != "RETR"@[0]);
    assert("STAT"@[2] != "STOR"@[2]);
    assert("STAT"@[0] != "APPE"@[0]);
    assert("STAT"@[2] != "STOU"@[2]);
    assert("STAT"@[0] != "ALLO"@[0]);
    assert("STAT"@[0] != "LIST"@[0]);
    assert("STAT"@[0] != "NLST"@[0]);
    assert("STAT"@[0] != "XMKD"@[0]);
    assert("STAT"@[0] != "XRMD"@[0]);
    assert("STAT"@[0] != "DELE"@[0]);
    assert("STAT"@[0] != "RNFR"@[0]);
    assert("STAT"@[0] != "RNTO"@[0]);
    assert("STAT"@[1] != "SYST"@[1]);
    assert("HELP"@[0] != "USER"@[0]);
    assert("HELP"@[0] != "PASS"@[0]);
    assert("HELP"@[0] != "ACCT"@[0]);
    assert("HELP"@[0] != "TYPE"@[0]);
    assert("HELP"@[0] != "STRU"@[0]);
    assert("HELP"@[0] != "MODE"@[0]);
    assert("HELP"@[0] != "XPWD"@[0]);
    assert("HELP"@[0] != "XCWD"@[0]);
    assert("HELP"@[0] != "CDUP"@[0]);
    assert("HELP"@[0] != "XCUP"@[0]);
    assert("HELP"@[0] != "PASV"@[0]);
    assert("HELP"@[0] != "PORT"@[0]);
    assert("HELP"@[0] != "REST"@[0]);
    assert("HELP"@[0] != "RETR"@[0]);
    assert("HELP"@[0] != "STOR"@[0]);
    assert("HELP"@[0] != "APPE"@[0]);
    assert("HELP"@[0] != "STOU"@[0]);
    assert("HELP"@[0] != "ALLO"@[0]);
    assert("HELP"@[0] != "LIST"@[0]);
    assert("HELP"@[0] != "NLST"@[0]);
    assert("HELP"@[0] != "XMKD"@[0]);
    assert("HELP"@[0] != "XRMD"@[0]);
    assert("HELP"@[0] != "DELE"@[0]);
    assert("HELP"@[0] != "RNFR"@[0]);
    assert("HELP"@[0] != "RNTO"@[0]);
    assert("HELP"@[0] != "SYST"@[0]);
    assert("HELP"@[0] != "STAT"@[0]);
    assert("NOOP"@[0] != "USER"@[0]);
    assert("NOOP"@[0] != "PASS"@[0]);
    assert("NOOP"@[0] != "ACCT"@[0]);
    assert("NOOP"@[0] != "TYPE"@[0]);
    assert("NOOP"@[0] != "STRU"@[0]);
    assert("NOOP"@[0] != "MODE"@[0]);
    assert("NOOP"@[0] != "XPWD"@[0]);
    assert("NOOP"@[0] != "XCWD"@[0]);
    assert("NOOP"@[0] != "CDUP"@[0]);
    assert("NOOP"@[0] != "XCUP"@[0]);
    assert("NOOP"@[0] != "PASV"@[0]);
    assert("NOOP"@[0] != "PORT"@[0]);
    assert("NOOP"@[0] != "REST"@[0]);
    assert("NOOP"@[0] != "RETR"@[0]);
    assert("NOOP"@[0] != "STOR"@[0]);
    assert("NOOP"@[0] != "APPE"@[0]);
    assert("NOOP"@[0] != "STOU"@[0]);
    assert("NOOP"@[0] != "ALLO"@[0]);
    assert("NOOP"@[0] != "LIST"@[0]);
    assert("NOOP"@[1] != "NLST"@[1]);
    assert("NOOP"@[0] != "XMKD"@[0]);
    assert("NOOP"@[0] != "XRMD"@[0]);
    assert("NOOP"@[0] != "DELE"@[0]);
    assert("NOOP"@[0] != "RNFR"@[0]);
    assert("NOOP"@[0] != "RNTO"@[0]);
    assert("NOOP"@[0] != "SYST"@[0]);
    assert("NOOP"@[0] != "STAT"@[0]);
    assert("NOOP"@[0] != "HELP"@[0]);
    assert("QUIT"@[0] != "USER"@[0]);
    assert("QUIT"@[0] != "PASS"@[0]);
    assert("QUIT"@[0] != "ACCT"@[0]);
    assert("QUIT"@[0] != "TYPE"@[0]);
    assert("QUIT"@[0] != "STRU"@[0]);
    assert("QUIT"@[0] != "MODE"@[0]);
    assert("QUIT"@[0] != "XPWD"@[0]);
    assert("QUIT"@[0] != "XCWD"@[0]);
    assert("QUIT"@[0] != "CDUP"@[0]);
    assert("QUIT"@[0] != "XCUP"@[0]);
    assert("QUIT"@[0] != "PASV"@[0]);
    assert("QUIT"@[0] != "PORT"@[0]);
    assert("QUIT"@[0] != "REST"@[0]);
    assert("QUIT"@[0] != "RETR"@[0]);
    assert("QUIT"@[0] != "STOR"@[0]);
    assert("QUIT"@[0] != "APPE"@[0]);
    assert("QUIT"@[0] != "STOU"@[0]);
    assert("QUIT"@[0] != "ALLO"@[0]);
    assert("QUIT"@[0] != "LIST"@[0]);
    assert("QUIT"@[0] != "NLST"@[0]);
    assert("QUIT"@[0] != "XMKD"@[0]);
    assert("QUIT"@[0] != "XRMD"@[0]);
    assert("QUIT"@[0] != "DELE"@[0]);
    assert("QUIT"@[0] != "RNFR"@[0]);
    assert("QUIT"@[0] != "RNTO"@[0]);
    assert("QUIT"@[0] != "SYST"@[0]);
    assert("QUIT"@[0] != "STAT"@[0]);
    assert("QUIT"@[0] != "HELP"@[0]);
    assert("QUIT"@[0] != "NOOP"@[0]);
    match v {
        Verb::USER => {
            assert(verb_of_upper("USER"@) == Some(Verb::USER));
        },
        Verb::PASS => {
            assert(verb_of_upper("PASS"@) == Some(Verb::PASS));
        },
        Verb::ACCT => {
            assert(verb_of_upper("ACCT"@) == Some(Verb::ACCT));
        },
        Verb::TYPE => {
            assert(verb_of_upper("TYPE"@) == Some(Verb::TYPE));
        },
        Verb::STRU => {
            assert(verb_of_upper("STRU"@) == Some(Verb::STRU));
        },
        Verb::MODE => {
            assert(verb_of_upper("MODE"@) == Some(Verb::MODE));
        },
        Verb::PWD => {
            assert(verb_of_upper("PWD"@) == Some(Verb::PWD));
        },
        Verb::XPWD => {
            assert(verb_of_upper("XPWD"@) == Some(Verb::XPWD));
        },
        Verb::CWD => {
            assert(verb_of_upper("CWD"@) == Some(Verb::CWD));
        },
        Verb::XCWD => {
            assert(verb_of_upper("XCWD"@) == Some(Verb::XCWD));
        },
        Verb::CDUP => {
            assert(verb_of_upper("CDUP"@) == Some(Verb::CDUP));
        },
        Verb::XCUP => {
            assert(verb_of_upper("XCUP"@) == Some(Verb::XCUP));
        },
        Verb::PASV => {
            assert(verb_of_upper("PASV"@) == Some(Verb::PASV));
        },
        Verb::PORT => {
            assert(verb_of_upper("PORT"@) == Some(Verb::PORT));
        },
        Verb::REST => {
            assert(verb_of_upper("REST"@) == Some(Verb::REST));
        },
        Verb::RETR => {
            assert(verb_of_upper("RETR"@) == Some(Verb::RETR));
        },
        Verb::STOR => {
            assert(verb_of_upper("STOR"@) == Some(Verb::STOR));
        },
        Verb::APPE => {
            assert(verb_of_upper("APPE"@) == Some(Verb::APPE));
        },
        Verb::STOU => {
            assert(verb_of_upper("STOU"@) == Some(Verb::STOU));
        },
        Verb::ALLO => {
            assert(verb_of_upper("ALLO"@) == Some(Verb::ALLO));
        },
        Verb::LIST => {
            assert(verb_of_upper("LIST"@) == Some(Verb::LIST));
        },
        Verb::NLST => {
            assert(verb_of_upper("NLST"@) == Some(Verb::NLST));
        },
        Verb::MKD => {
            assert(verb_of_upper("MKD"@) == Some(Verb::MKD));
        },
        Verb::XMKD => {
            assert(verb_of_upper("XMKD"@) == Some(Verb::XMKD));
        },
        Verb::RMD => {
            assert(verb_of_upper("RMD"@) == Some(Verb::RMD));
        },
        Verb::XRMD => {
            assert(verb_of_upper("XRMD"@) == Some(Verb::XRMD));
        },
        Verb::DELE => {
            assert(verb_of_upper("DELE"@) == Some(Verb::DELE));
        },
        Verb::RNFR => {
            assert(verb_of_upper("RNFR"@) == Some(Verb::RNFR));
        },
        Verb::RNTO => {
            assert(verb_of_upper("RNTO"@) == Some(Verb::RNTO));
        },
        Verb::SYST => {
            assert(verb_of_upper("SYST"@) == Some(Verb::SYST));
        },
        Verb::STAT => {
            assert(verb_of_upper("STAT"@) == Some(Verb::STAT));
        },
        Verb::HELP => {
            assert(verb_of_upper("HELP"@) == Some(Verb::HELP));
        },
        Verb::NOOP => {
            assert(verb_of_upper("NOOP"@) == Some(Verb::NOOP));
        },
        Verb::QUIT => {
            assert(verb_of_upper("QUIT"@) == Some(Verb::QUIT));
        },
    }
}

/// Tokens whose upper-case images agree name the same verb, if any.
pub proof fn lemma_verb_case_insensitive(t1: Seq<char>, t2: Seq<char>)
    requires
        upper_chars(t1) == upper_chars(t2),
    ensures
        spec_verb_of(t1) == spec_verb_of(t2),
{
    assert(t1.len() == t2.len()) by {
        assert(upper_chars(t1).len() == t1.len());
        assert(upper_chars(t2).len() == t2.len());
    }
    assert forall|i: int| 0 <= i < t1.len() implies (('\0' <= #[trigger] t1[i] <= '\u{7f}')
        == ('\0' <= t2[i] <= '\u{7f}')) by {
        assert(upper_chars(t1)[i] == upper_char(t1[i]));
        assert(upper_chars(t2)[i] == upper_char(t2[i]));
    }
    assert(vstd::utf8::is_ascii_chars(t1) == vstd::utf8::is_ascii_chars(t2)) by {
        if vstd::utf8::is_ascii_chars(t1) && !vstd::utf8::is_ascii_chars(t2) {
            let i = choose|i: int| 0 <= i < t2.len() && !('\0' <= #[trigger] t2[i] <= '\u{7f}');
            assert('\0' <= t1[i] <= '\u{7f}');
        }
        if vstd::utf8::is_ascii_chars(t2) && !vstd::utf8::is_ascii_chars(t1) {
            let i = choose|i: int| 0 <= i < t1.len() && !('\0' <= #[trigger] t1[i] <= '\u{7f}');
            assert('\0' <= t2[i] <= '\u{7f}');
        }
    }
}

impl Verb {
    /// Parses a verb token, accepting any casing of its letters.
    pub fn from_str(s: &str) -> (r: Result<Verb, String>)
        ensures
            r matches Ok(v) ==> spec_verb_of(s@) == Some(v),
            r matches Err(e) ==> spec_verb_of(s@) is None && e@ == "Unknown verb: "@ + s@,
    {
        let up_s = match to_ascii_upper(s) {
            Some(u) => u,
            None => {
                return Err("Unknown verb: ".to_owned().concat(s));
            },
        };
        let u = up_s.as_str();
        if str_eq(u, "USER") {
            Ok(Verb::USER)
        } else if str_eq(u, "PASS") {
            Ok(Verb::PASS)
        } else if str_eq(u, "ACCT") {
            Ok(Verb::ACCT)
        } else if str_eq(u, "TYPE") {
            Ok(Verb::TYPE)
        } else if str_eq(u, "STRU") {
            Ok(Verb::STRU)
        } else if str_eq(u, "MODE") {
            Ok(Verb::MODE)
        } else if str_eq(u, "PWD") {
            Ok(Verb::PWD)
        } else if str_eq(u, "XPWD") {
            Ok(Verb::XPWD)
        } else if str_eq(u, "CWD") {
            Ok(Verb::CWD)
        } else if str_eq(u, "XCWD") {
            Ok(Verb::XCWD)
        } else if str_eq(u, "CDUP") {
            Ok(Verb::CDUP)
        } else if str_eq(u, "XCUP") {
            Ok(Verb::XCUP)
        } else if str_eq(u, "PASV") {
            Ok(Verb::PASV)
        } else if str_eq(u, "PORT") {
            Ok(Verb::PORT)
        } else if str_eq(u, "REST") {
            Ok(Verb::REST)
        } else if str_eq(u, "RETR") {
            Ok(Verb::RETR)
        } else if str_eq(u, "STOR") {
            Ok(Verb::STOR)
        } else if str_eq(u, "APPE") {
            Ok(Verb::APPE)
        } else if str_eq(u, "STOU") {
            Ok(Verb::STOU)
        } else if str_eq(u, "ALLO") {
            Ok(Verb::ALLO)
        } else if str_eq(u, "LIST") {
            Ok(Verb::LIST)
        } else if str_eq(u, "NLST") {
            Ok(Verb::NLST)
        } else if str_eq(u, "MKD") {
            Ok(Verb::MKD)
        } else if str_eq(u, "XMKD") {
            Ok(Verb::XMKD)
        } else if str_eq(u, "RMD") {
            Ok(Verb::RMD)
        } else if str_eq(u, "XRMD") {
            Ok(Verb::XRMD)
        } else if str_eq(u, "DELE") {
            Ok(Verb::DELE)
        } else if str_eq(u, "RNFR") {
            Ok(Verb::RNFR)
        } else if str_eq(u, "RNTO") {
            Ok(Verb::RNTO)
        } else if str_eq(u, "SYST") {
            Ok(Verb::SYST)
        } else if str_eq(u, "STAT") {
            Ok(Verb::STAT)
        } else if str_eq(u, "HELP") {
            Ok(Verb::HELP)
        } else if str_eq(u, "NOOP") {
            Ok(Verb::NOOP)
        } else if str_eq(u, "QUIT") {
            Ok(Verb::QUIT)
        } else {
            Err("Unknown verb: ".to_owned().concat(s))
        }
    }

    /// The token that names this verb.
    pub fn name(&self) -> (r: &'static str)
        ensures
            r@ == verb_name(*self),
    {
        match self {
            Verb::USER => "USER",
            Verb::PASS => "PASS",
            Verb::ACCT => "ACCT",
            Verb::TYPE => "TYPE",
            Verb::STRU => "STRU",
            Verb::MODE => "MODE",
            Verb::PWD => "PWD",
            Verb::XPWD => "XPWD",
            Verb::CWD => "CWD",
            Verb::XCWD => "XCWD",
            Verb::CDUP => "CDUP",
            Verb::XCUP => "XCUP",
            Verb::PASV => "PASV",
            Verb::PORT => "PORT",
            Verb::REST => "REST",
            Verb::RETR => "RETR",
            Verb::STOR => "STOR",
            Verb::APPE => "APPE",
            Verb::STOU => "STOU",
            Verb::ALLO => "ALLO",
            Verb::LIST => "LIST",
            Verb::NLST => "NLST",
            Verb::MKD => "MKD",
            Verb::XMKD => "XMKD",
            Verb::RMD => "RMD",
            Verb::XRMD => "XRMD",
            Verb::DELE => "DELE",
            Verb::RNFR => "RNFR",
            Verb::RNTO => "RNTO",
            Verb::SYST => "SYST",
            Verb::STAT => "STAT",
            Verb::HELP => "HELP",
            Verb::NOOP => "NOOP",
            Verb::QUIT => "QUIT",
        }
    }
}

} // verus!
