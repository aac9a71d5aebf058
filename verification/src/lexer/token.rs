//! Tokens.

use vstd::prelude::*;
use crate::ast::span::Span;
use crate::util::interner::same_text;

verus! {

/// All token types in ECMAScript 2020+.
#[derive(Clone, Copy, PartialEq, Eq, Structural, Debug)]
pub enum TokenKind {
    // ---- Literals ----
    Number,
    BigInt,
    String,
    RegExp,
    TemplateLiteralHead,   // `text${
    TemplateLiteralMiddle, // }text${
    TemplateLiteralTail,   // }text`
    TemplateLiteralFull,   // `text` (no interpolation)

    // ---- Identifiers & Keywords ----
    Identifier,

    // Keywords
    Await,
    Break,
    Case,
    Catch,
    Class,
    Const,
    Continue,
    Debugger,
    Default,
    Delete,
    Do,
    Else,
    Enum,
    Export,
    Extends,
    Finally,
    For,
    Function,
    If,
    Import,
    In,
    Instanceof,
    Let,
    New,
    Of,
    Return,
    Super,
    Switch,
    This,
    Throw,
    Try,
    Typeof,
    Var,
    Void,
    While,
    With,
    Yield,

    // Strict mode reserved words
    Implements,
    Interface,
    Package,
    Private,
    Protected,
    Public,
    Static,

    // Literal keywords
    True,
    False,
    Null,
    Undefined,

    // ---- Punctuators ----
    // Grouping
    LParen,    // (
    RParen,    // )
    LBrace,    // {
    RBrace,    // }
    LBracket,  // [
    RBracket,  // ]

    // Operators
    Dot,          // .
    DotDotDot,    // ...
    Semicolon,    // ;
    Comma,        // ,
    Colon,        // :
    Question,     // ?
    QuestionDot,  // ?.
    QuestionQuestion, // ??
    Arrow,        // =>
    Hash,         // #  (bare hash, error recovery)
    PrivateIdentifier, // #name  (private field/method name)

    // Assignment
    Assign,           // =
    PlusAssign,       // +=
    MinusAssign,      // -=
    StarAssign,       // *=
    SlashAssign,      // /=
    PercentAssign,    // %=
    StarStarAssign,   // **=
    AmpAssign,        // &=
    PipeAssign,       // |=
    CaretAssign,      // ^=
    LtLtAssign,       // <<=
    GtGtAssign,       // >>=
    GtGtGtAssign,     // >>>=
    AmpAmpAssign,     // &&=
    PipePipeAssign,   // ||=
    QuestionQuestionAssign, // ??=

    // Arithmetic
    Plus,       // +
    Minus,      // -
    Star,       // *
    Slash,      // /
    Percent,    // %
    StarStar,   // **
    PlusPlus,   // ++
    MinusMinus, // --

    // Comparison
    EqEq,      // ==
    NotEq,     // !=
    EqEqEq,    // ===
    NotEqEq,   // !==
    Lt,        // <
    Gt,        // >
    LtEq,      // <=
    GtEq,      // >=

    // Bitwise
    Amp,       // &
    Pipe,      // |
    Caret,     // ^
    Tilde,     // ~
    LtLt,      // <<
    GtGt,      // >>
    GtGtGt,    // >>>

    // Logical
    AmpAmp,   // &&
    PipePipe, // ||
    Bang,      // !

    // ---- Special ----
    Eof,
    /// Illegal/unexpected character
    Error,
}

impl TokenKind {
    /// Whether the kind is a keyword that can also be used as an identifier in non-strict
    /// mode (contextual keywords).
    pub open spec fn contextual_keyword(self) -> bool {
        match self {
            TokenKind::Let => true,
            TokenKind::Of => true,
            TokenKind::Yield => true,
            TokenKind::Await => true,
            TokenKind::Static => true,
            TokenKind::Implements => true,
            TokenKind::Interface => true,
            TokenKind::Package => true,
            TokenKind::Private => true,
            TokenKind::Protected => true,
            TokenKind::Public => true,
            _ => false,
        }
    }

    /// Whether the kind is an assignment operator.
    pub open spec fn assignment_operator(self) -> bool {
        match self {
            TokenKind::Assign => true,
            TokenKind::PlusAssign => true,
            TokenKind::MinusAssign => true,
            TokenKind::StarAssign => true,
            TokenKind::SlashAssign => true,
            TokenKind::PercentAssign => true,
            TokenKind::StarStarAssign => true,
            TokenKind::AmpAssign => true,
            TokenKind::PipeAssign => true,
            TokenKind::CaretAssign => true,
            TokenKind::LtLtAssign => true,
            TokenKind::GtGtAssign => true,
            TokenKind::GtGtGtAssign => true,
            TokenKind::AmpAmpAssign => true,
            TokenKind::PipePipeAssign => true,
            TokenKind::QuestionQuestionAssign => true,
            _ => false,
        }
    }

    /// The name of the kind.
    pub open spec fn label(self) -> Seq<char> {
        match self {
            TokenKind::Number => "Number"@,
            TokenKind::BigInt => "BigInt"@,
            TokenKind::String => "String"@,
            TokenKind::RegExp => "RegExp"@,
            TokenKind::TemplateLiteralHead => "TemplateLiteralHead"@,
            TokenKind::TemplateLiteralMiddle => "TemplateLiteralMiddle"@,
            TokenKind::TemplateLiteralTail => "TemplateLiteralTail"@,
            TokenKind::TemplateLiteralFull => "TemplateLiteralFull"@,
            TokenKind::Identifier => "Identifier"@,
            TokenKind::Await => "Await"@,
            TokenKind::Break => "Break"@,
            TokenKind::Case => "Case"@,
            TokenKind::Catch => "Catch"@,
            TokenKind::Class => "Class"@,
            TokenKind::Const => "Const"@,
            TokenKind::Continue => "Continue"@,
            TokenKind::Debugger => "Debugger"@,
            TokenKind::Default => "Default"@,
            TokenKind::Delete => "Delete"@,
            TokenKind::Do => "Do"@,
            TokenKind::Else => "Else"@,
            TokenKind::Enum => "Enum"@,
            TokenKind::Export => "Export"@,
            TokenKind::Extends => "Extends"@,
            TokenKind::Finally => "Finally"@,
            TokenKind::For => "For"@,
            TokenKind::Function => "Function"@,
            TokenKind::If => "If"@,
            TokenKind::Import => "Import"@,
            TokenKind::In => "In"@,
            TokenKind::Instanceof => "Instanceof"@,
            TokenKind::Let => "Let"@,
            TokenKind::New => "New"@,
            TokenKind::Of => "Of"@,
            TokenKind::Return => "Return"@,
            TokenKind::Super => "Super"@,
            TokenKind::Switch => "Switch"@,
            TokenKind::This => "This"@,
            TokenKind::Throw => "Throw"@,
            TokenKind::Try => "Try"@,
            TokenKind::Typeof => "Typeof"@,
            TokenKind::Var => "Var"@,
            TokenKind::Void => "Void"@,
            TokenKind::While => "While"@,
            TokenKind::With => "With"@,
            TokenKind::Yield => "Yield"@,
            TokenKind::Implements => "Implements"@,
            TokenKind::Interface => "Interface"@,
            TokenKind::Package => "Package"@,
            TokenKind::Private => "Private"@,
            TokenKind::Protected => "Protected"@,
            TokenKind::Public => "Public"@,
            TokenKind::Static => "Static"@,
            TokenKind::True => "True"@,
            TokenKind::False => "False"@,
            TokenKind::Null => "Null"@,
            TokenKind::Undefined => "Undefined"@,
            TokenKind::LParen => "LParen"@,
            TokenKind::RParen => "RParen"@,
            TokenKind::LBrace => "LBrace"@,
            TokenKind::RBrace => "RBrace"@,
            TokenKind::LBracket => "LBracket"@,
            TokenKind::RBracket => "RBracket"@,
            TokenKind::Dot => "Dot"@,
            TokenKind::DotDotDot => "DotDotDot"@,
            TokenKind::Semicolon => "Semicolon"@,
            TokenKind::Comma => "Comma"@,
            TokenKind::Colon => "Colon"@,
            TokenKind::Question => "Question"@,
            TokenKind::QuestionDot => "QuestionDot"@,
            TokenKind::QuestionQuestion => "QuestionQuestion"@,
            TokenKind::Arrow => "Arrow"@,
            TokenKind::Hash => "Hash"@,
            TokenKind::PrivateIdentifier => "PrivateIdentifier"@,
            TokenKind::Assign => "Assign"@,
            TokenKind::PlusAssign => "PlusAssign"@,
            TokenKind::MinusAssign => "MinusAssign"@,
            TokenKind::StarAssign => "StarAssign"@,
            TokenKind::SlashAssign => "SlashAssign"@,
            TokenKind::PercentAssign => "PercentAssign"@,
            TokenKind::StarStarAssign => "StarStarAssign"@,
            TokenKind::AmpAssign => "AmpAssign"@,
            TokenKind::PipeAssign => "PipeAssign"@,
            TokenKind::CaretAssign => "CaretAssign"@,
            TokenKind::LtLtAssign => "LtLtAssign"@,
            TokenKind::GtGtAssign => "GtGtAssign"@,
            TokenKind::GtGtGtAssign => "GtGtGtAssign"@,
            TokenKind::AmpAmpAssign => "AmpAmpAssign"@,
            TokenKind::PipePipeAssign => "PipePipeAssign"@,
            TokenKind::QuestionQuestionAssign => "QuestionQuestionAssign"@,
            TokenKind::Plus => "Plus"@,
            TokenKind::Minus => "Minus"@,
            TokenKind::Star => "Star"@,
            TokenKind::Slash => "Slash"@,
            TokenKind::Percent => "Percent"@,
            TokenKind::StarStar => "StarStar"@,
            TokenKind::PlusPlus => "PlusPlus"@,
            TokenKind::MinusMinus => "MinusMinus"@,
            TokenKind::EqEq => "EqEq"@,
            TokenKind::NotEq => "NotEq"@,
            TokenKind::EqEqEq => "EqEqEq"@,
            TokenKind::NotEqEq => "NotEqEq"@,
            TokenKind::Lt => "Lt"@,
            TokenKind::Gt => "Gt"@,
            TokenKind::LtEq => "LtEq"@,
            TokenKind::GtEq => "GtEq"@,
            TokenKind::Amp => "Amp"@,
            TokenKind::Pipe => "Pipe"@,
            TokenKind::Caret => "Caret"@,
            TokenKind::Tilde => "Tilde"@,
            TokenKind::LtLt => "LtLt"@,
            TokenKind::GtGt => "GtGt"@,
            TokenKind::GtGtGt => "GtGtGt"@,
            TokenKind::AmpAmp => "AmpAmp"@,
            TokenKind::PipePipe => "PipePipe"@,
            TokenKind::Bang => "Bang"@,
            TokenKind::Eof => "Eof"@,
            TokenKind::Error => "Error"@,
        }
    }

    /// Returns true if this token is a keyword that can also be used as an identifier
    /// in non-strict mode (contextual keywords).
    pub fn is_contextual_keyword(&self) -> (result: bool)
        ensures
            result == self.contextual_keyword(),
    {
        match self {
            TokenKind::Let => true,
            TokenKind::Of => true,
            TokenKind::Yield => true,
            TokenKind::Await => true,
            TokenKind::Static => true,
            TokenKind::Implements => true,
            TokenKind::Interface => true,
            TokenKind::Package => true,
            TokenKind::Private => true,
            TokenKind::Protected => true,
            TokenKind::Public => true,
            _ => false,
        }
    }

    /// Returns true if this token is an assignment operator.
    pub fn is_assignment_operator(&self) -> (result: bool)
        ensures
            result == self.assignment_operator(),
    {
        match self {
            TokenKind::Assign => true,
            TokenKind::PlusAssign => true,
            TokenKind::MinusAssign => true,
            TokenKind::StarAssign => true,
            TokenKind::SlashAssign => true,
            TokenKind::PercentAssign => true,
            TokenKind::StarStarAssign => true,
            TokenKind::AmpAssign => true,
            TokenKind::PipeAssign => true,
            TokenKind::CaretAssign => true,
            TokenKind::LtLtAssign => true,
            TokenKind::GtGtAssign => true,
            TokenKind::GtGtGtAssign => true,
            TokenKind::AmpAmpAssign => true,
            TokenKind::PipePipeAssign => true,
            TokenKind::QuestionQuestionAssign => true,
            _ => false,
        }
    }

    /// The name of the kind.
    pub fn name(&self) -> (text: &'static str)
        ensures
            text@ == self.label(),
    {
        match self {
            TokenKind::Number => "Number",
            TokenKind::BigInt => "BigInt",
            TokenKind::String => "String",
            TokenKind::RegExp => "RegExp",
            TokenKind::TemplateLiteralHead => "TemplateLiteralHead",
            TokenKind::TemplateLiteralMiddle => "TemplateLiteralMiddle",
            TokenKind::TemplateLiteralTail => "TemplateLiteralTail",
            TokenKind::TemplateLiteralFull => "TemplateLiteralFull",
            TokenKind::Identifier => "Identifier",
            TokenKind::Await => "Await",
            TokenKind::Break => "Break",
            TokenKind::Case => "Case",
            TokenKind::Catch => "Catch",
            TokenKind::Class => "Class",
            TokenKind::Const => "Const",
            TokenKind::Continue => "Continue",
            TokenKind::Debugger => "Debugger",
            TokenKind::Default => "Default",
            TokenKind::Delete => "Delete",
            TokenKind::Do => "Do",
            TokenKind::Else => "Else",
            TokenKind::Enum => "Enum",
            TokenKind::Export => "Export",
            TokenKind::Extends => "Extends",
            TokenKind::Finally => "Finally",
            TokenKind::For => "For",
            TokenKind::Function => "Function",
            TokenKind::If => "If",
            TokenKind::Import => "Import",
            TokenKind::In => "In",
            TokenKind::Instanceof => "Instanceof",
            TokenKind::Let => "Let",
            TokenKind::New => "New",
            TokenKind::Of => "Of",
            TokenKind::Return => "Return",
            TokenKind::Super => "Super",
            TokenKind::Switch => "Switch",
            TokenKind::This => "This",
            TokenKind::Throw => "Throw",
            TokenKind::Try => "Try",
            TokenKind::Typeof => "Typeof",
            TokenKind::Var => "Var",
            TokenKind::Void => "Void",
            TokenKind::While => "While",
            TokenKind::With => "With",
            TokenKind::Yield => "Yield",
            TokenKind::Implements => "Implements",
            TokenKind::Interface => "Interface",
            TokenKind::Package => "Package",
            TokenKind::Private => "Private",
            TokenKind::Protected => "Protected",
            TokenKind::Public => "Public",
            TokenKind::Static => "Static",
            TokenKind::True => "True",
            TokenKind::False => "False",
            TokenKind::Null => "Null",
            TokenKind::Undefined => "Undefined",
            TokenKind::LParen => "LParen",
            TokenKind::RParen => "RParen",
            TokenKind::LBrace => "LBrace",
            TokenKind::RBrace => "RBrace",
            TokenKind::LBracket => "LBracket",
            TokenKind::RBracket => "RBracket",
            TokenKind::Dot => "Dot",
            TokenKind::DotDotDot => "DotDotDot",
            TokenKind::Semicolon => "Semicolon",
            TokenKind::Comma => "Comma",
            TokenKind::Colon => "Colon",
            TokenKind::Question => "Question",
            TokenKind::QuestionDot => "QuestionDot",
            TokenKind::QuestionQuestion => "QuestionQuestion",
            TokenKind::Arrow => "Arrow",
            TokenKind::Hash => "Hash",
            TokenKind::PrivateIdentifier => "PrivateIdentifier",
            TokenKind::Assign => "Assign",
            TokenKind::PlusAssign => "PlusAssign",
            TokenKind::MinusAssign => "MinusAssign",
            TokenKind::StarAssign => "StarAssign",
            TokenKind::SlashAssign => "SlashAssign",
            TokenKind::PercentAssign => "PercentAssign",
            TokenKind::StarStarAssign => "StarStarAssign",
            TokenKind::AmpAssign => "AmpAssign",
            TokenKind::PipeAssign => "PipeAssign",
            TokenKind::CaretAssign => "CaretAssign",
            TokenKind::LtLtAssign => "LtLtAssign",
            TokenKind::GtGtAssign => "GtGtAssign",
            TokenKind::GtGtGtAssign => "GtGtGtAssign",
            TokenKind::AmpAmpAssign => "AmpAmpAssign",
            TokenKind::PipePipeAssign => "PipePipeAssign",
            TokenKind::QuestionQuestionAssign => "QuestionQuestionAssign",
            TokenKind::Plus => "Plus",
            TokenKind::Minus => "Minus",
            TokenKind::Star => "Star",
            TokenKind::Slash => "Slash",
            TokenKind::Percent => "Percent",
            TokenKind::StarStar => "StarStar",
            TokenKind::PlusPlus => "PlusPlus",
            TokenKind::MinusMinus => "MinusMinus",
            TokenKind::EqEq => "EqEq",
            TokenKind::NotEq => "NotEq",
            TokenKind::EqEqEq => "EqEqEq",
            TokenKind::NotEqEq => "NotEqEq",
            TokenKind::Lt => "Lt",
            TokenKind::Gt => "Gt",
            TokenKind::LtEq => "LtEq",
            TokenKind::GtEq => "GtEq",
            TokenKind::Amp => "Amp",
            TokenKind::Pipe => "Pipe",
            TokenKind::Caret => "Caret",
            TokenKind::Tilde => "Tilde",
            TokenKind::LtLt => "LtLt",
            TokenKind::GtGt => "GtGt",
            TokenKind::GtGtGt => "GtGtGt",
            TokenKind::AmpAmp => "AmpAmp",
            TokenKind::PipePipe => "PipePipe",
            TokenKind::Bang => "Bang",
            TokenKind::Eof => "Eof",
            TokenKind::Error => "Error",
        }
    }
}

/// A token with its kind, span, and whether it was preceded by a line terminator
/// (needed for automatic semicolon insertion).
#[derive(Clone, Copy, PartialEq, Eq, Structural, Debug)]
pub struct Token {
    pub kind: TokenKind,
    pub span: Span,
    /// True if there was at least one line terminator before this token.
    pub preceded_by_newline: bool,
}

impl Token {
    /// A token.
    pub fn new(kind: TokenKind, span: Span, preceded_by_newline: bool) -> (token: Self)
        ensures
            token == (Token { kind, span, preceded_by_newline }),
    {
        Token { kind, span, preceded_by_newline }
    }
}

/// The keyword that a text is.
pub open spec fn keyword_of(text: Seq<char>) -> Option<TokenKind> {
    if text == "await"@ {
        Some(TokenKind::Await)
    } else if text == "break"@ {
        Some(TokenKind::Break)
    } else if text == "case"@ {
        Some(TokenKind::Case)
    } else if text == "catch"@ {
        Some(TokenKind::Catch)
    } else if text == "class"@ {
        Some(TokenKind::Class)
    } else if text == "const"@ {
        Some(TokenKind::Const)
    } else if text == "continue"@ {
        Some(TokenKind::Continue)
    } else if text == "debugger"@ {
        Some(TokenKind::Debugger)
    } else if text == "default"@ {
        Some(TokenKind::Default)
    } else if text == "delete"@ {
        Some(TokenKind::Delete)
    } else if text == "do"@ {
        Some(TokenKind::Do)
    } else if text == "else"@ {
        Some(TokenKind::Else)
    } else if text == "enum"@ {
        Some(TokenKind::Enum)
    } else if text == "export"@ {
        Some(TokenKind::Export)
    } else if text == "extends"@ {
        Some(TokenKind::Extends)
    } else if text == "false"@ {
        Some(TokenKind::False)
    } else if text == "finally"@ {
        Some(TokenKind::Finally)
    } else if text == "for"@ {
        Some(TokenKind::For)
    } else if text == "function"@ {
        Some(TokenKind::Function)
    } else if text == "if"@ {
        Some(TokenKind::If)
    } else if text == "import"@ {
        Some(TokenKind::Import)
    } else if text == "in"@ {
        Some(TokenKind::In)
    } else if text == "instanceof"@ {
        Some(TokenKind::Instanceof)
    } else if text == "let"@ {
        Some(TokenKind::Let)
    } else if text == "new"@ {
        Some(TokenKind::New)
    } else if text == "null"@ {
        Some(TokenKind::Null)
    } else if text == "of"@ {
        Some(TokenKind::Of)
    } else if text == "return"@ {
        Some(TokenKind::Return)
    } else if text == "super"@ {
        Some(TokenKind::Super)
    } else if text == "switch"@ {
        Some(TokenKind::Switch)
    } else if text == "this"@ {
        Some(TokenKind::This)
    } else if text == "throw"@ {
        Some(TokenKind::Throw)
    } else if text == "true"@ {
        Some(TokenKind::True)
    } else if text == "try"@ {
        Some(TokenKind::Try)
    } else if text == "typeof"@ {
        Some(TokenKind::Typeof)
    } else if text == "undefined"@ {
        Some(TokenKind::Undefined)
    } else if text == "var"@ {
        Some(TokenKind::Var)
    } else if text == "void"@ {
        Some(TokenKind::Void)
    } else if text == "while"@ {
        Some(TokenKind::While)
    } else if text == "with"@ {
        Some(TokenKind::With)
    } else if text == "yield"@ {
        Some(TokenKind::Yield)
    } else if text == "implements"@ {
        Some(TokenKind::Implements)
    } else if text == "interface"@ {
        Some(TokenKind::Interface)
    } else if text == "package"@ {
        Some(TokenKind::Package)
    } else if text == "private"@ {
        Some(TokenKind::Private)
    } else if text == "protected"@ {
        Some(TokenKind::Protected)
    } else if text == "public"@ {
        Some(TokenKind::Public)
    } else if text == "static"@ {
        Some(TokenKind::Static)
    } else {
        None
    }
}

/// Look up a keyword from an identifier string.
pub fn lookup_keyword(text: &str) -> (kind: Option<TokenKind>)
    ensures
        kind == keyword_of(text@),
{
    if same_text(text, "await") {
        Some(TokenKind::Await)
    } else if same_text(text, "break") {
        Some(TokenKind::Break)
    } else if same_text(text, "case") {
        Some(TokenKind::Case)
    } else if same_text(text, "catch") {
        Some(TokenKind::Catch)
    } else if same_text(text, "class") {
        Some(TokenKind::Class)
    } else if same_text(text, "const") {
        Some(TokenKind::Const)
    } else if same_text(text, "continue") {
        Some(TokenKind::Continue)
    } else if same_text(text, "debugger") {
        Some(TokenKind::Debugger)
    } else if same_text(text, "default") {
        Some(TokenKind::Default)
    } else if same_text(text, "delete") {
        Some(TokenKind::Delete)
    } else if same_text(text, "do") {
        Some(TokenKind::Do)
    } else if same_text(text, "else") {
        Some(TokenKind::Else)
    } else if same_text(text, "enum") {
        Some(TokenKind::Enum)
    } else if same_text(text, "export") {
        Some(TokenKind::Export)
    } else if same_text(text, "extends") {
        Some(TokenKind::Extends)
    } else if same_text(text, "false") {
        Some(TokenKind::False)
    } else if same_text(text, "finally") {
        Some(TokenKind::Finally)
    } else if same_text(text, "for") {
        Some(TokenKind::For)
    } else if same_text(text, "function") {
        Some(TokenKind::Function)
    } else if same_text(text, "if") {
        Some(TokenKind::If)
    } else if same_text(text, "import") {
        Some(TokenKind::Import)
    } else if same_text(text, "in") {
        Some(TokenKind::In)
    } else if same_text(text, "instanceof") {
        Some(TokenKind::Instanceof)
    } else if same_text(text, "let") {
        Some(TokenKind::Let)
    } else if same_text(text, "new") {
        Some(TokenKind::New)
    } else if same_text(text, "null") {
        Some(TokenKind::Null)
    } else if same_text(text, "of") {
        Some(TokenKind::Of)
    } else if same_text(text, "return") {
        Some(TokenKind::Return)
    } else if same_text(text, "super") {
        Some(TokenKind::Super)
    } else if same_text(text, "switch") {
        Some(TokenKind::Switch)
    } else if same_text(text, "this") {
        Some(TokenKind::This)
    } else if same_text(text, "throw") {
        Some(TokenKind::Throw)
    } else if same_text(text, "true") {
        Some(TokenKind::True)
    } else if same_text(text, "try") {
        Some(TokenKind::Try)
    } else if same_text(text, "typeof") {
        Some(TokenKind::Typeof)
    } else if same_text(text, "undefined") {
        Some(TokenKind::Undefined)
    } else if same_text(text, "var") {
        Some(TokenKind::Var)
    } else if same_text(text, "void") {
        Some(TokenKind::Void)
    } else if same_text(text, "while") {
        Some(TokenKind::While)
    } else if same_text(text, "with") {
        Some(TokenKind::With)
    } else if same_text(text, "yield") {
        Some(TokenKind::Yield)
    } else if same_text(text, "implements") {
        Some(TokenKind::Implements)
    } else if same_text(text, "interface") {
        Some(TokenKind::Interface)
    } else if same_text(text, "package") {
        Some(TokenKind::Package)
    } else if same_text(text, "private") {
        Some(TokenKind::Private)
    } else if same_text(text, "protected") {
        Some(TokenKind::Protected)
    } else if same_text(text, "public") {
        Some(TokenKind::Public)
    } else if same_text(text, "static") {
        Some(TokenKind::Static)
    } else {
        None
    }
}

} // verus!
