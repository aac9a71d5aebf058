//! Syntax trees as values: the node types with sequences in place of vectors.

use vstd::prelude::*;
use crate::ast::node::{
    ArrayExpression, ArrayPattern, ArrowBody, ArrowFunctionExpression, AssignmentExpression,
    AssignmentOperator, AssignmentPattern, AssignmentTarget, AwaitExpression, BigIntLiteral,
    BinaryExpression, BinaryOperator, BlockStatement, BooleanLiteral, BreakStatement,
    CallExpression, CatchClause, ClassBody, ClassDeclaration, ClassExpression, ClassMember,
    ClassProperty, ConditionalExpression, ContinueStatement, DoWhileStatement,
    ExportDeclaration, ExportSpecifier, Expression, ExpressionStatement, ForInOfLeft,
    ForInStatement, ForInit, ForOfStatement, ForStatement, FunctionDeclaration,
    FunctionExpression, Identifier, IfStatement, ImportDeclaration, ImportExpression,
    ImportSpecifier, LabeledStatement, LogicalExpression, LogicalOperator, MemberExpression,
    MemberProperty, MetaProperty, MethodDefinition, MethodKind, NewExpression, NumberLiteral,
    ObjectExpression, ObjectPattern, ObjectPatternProperty, ObjectProperty,
    OptionalChainElement, OptionalChainExpression, Pattern, Program, Property, PropertyKey,
    PropertyKindVal, RegExpLiteral, RestElement, ReturnStatement, SequenceExpression,
    SourceType, SpreadElement, Statement, StringLiteral, SwitchCase, SwitchStatement,
    TaggedTemplateExpression, TemplateElement, TemplateLiteral, ThrowStatement, TryStatement,
    UnaryExpression, UnaryOperator, UpdateExpression, UpdateOperator, VarKind,
    VariableDeclaration, VariableDeclarator, WhileStatement, WithStatement, YieldExpression,
};
use crate::ast::span::Span;
use crate::util::interner::StringId;

verus! {

/// Program, as a value.
pub struct ProgramView {
    pub body: Seq<StatementView>,
    pub source_type: SourceType,
    pub span: Span,
}

/// Statement, as a value.
pub enum StatementView {
    Block(BlockStatementView),
    Variable(VariableDeclarationView),
    Empty(Span),
    Expression(ExpressionStatementView),
    If(Box<IfStatementView>),
    While(Box<WhileStatementView>),
    DoWhile(Box<DoWhileStatementView>),
    For(Box<ForStatementView>),
    ForIn(Box<ForInStatementView>),
    ForOf(Box<ForOfStatementView>),
    Switch(Box<SwitchStatementView>),
    Return(ReturnStatementView),
    Break(BreakStatement),
    Continue(ContinueStatement),
    Throw(ThrowStatementView),
    Try(Box<TryStatementView>),
    With(Box<WithStatementView>),
    Labeled(Box<LabeledStatementView>),
    Debugger(Span),
    Function(FunctionDeclarationView),
    Class(ClassDeclarationView),
    Import(ImportDeclarationView),
    Export(Box<ExportDeclarationView>),
}

/// Block statement, as a value.
pub struct BlockStatementView {
    pub body: Seq<StatementView>,
    pub span: Span,
}

/// Expression statement, as a value.
pub struct ExpressionStatementView {
    pub expression: ExpressionView,
    pub span: Span,
}

/// If statement, as a value.
pub struct IfStatementView {
    pub test: ExpressionView,
    pub consequent: StatementView,
    pub alternate: Option<StatementView>,
    pub span: Span,
}

/// While statement, as a value.
pub struct WhileStatementView {
    pub test: ExpressionView,
    pub body: StatementView,
    pub span: Span,
}

/// Do while statement, as a value.
pub struct DoWhileStatementView {
    pub body: StatementView,
    pub test: ExpressionView,
    pub span: Span,
}

/// For statement, as a value.
pub struct ForStatementView {
    pub init: Option<ForInitView>,
    pub test: Option<ExpressionView>,
    pub update: Option<ExpressionView>,
    pub body: StatementView,
    pub span: Span,
}

/// For init, as a value.
pub enum ForInitView {
    Variable(VariableDeclarationView),
    Expression(ExpressionView),
}

/// For in statement, as a value.
pub struct ForInStatementView {
    pub left: ForInOfLeftView,
    pub right: ExpressionView,
    pub body: StatementView,
    pub span: Span,
}

/// For of statement, as a value.
pub struct ForOfStatementView {
    pub left: ForInOfLeftView,
    pub right: ExpressionView,
    pub body: StatementView,
    pub is_await: bool,
    pub span: Span,
}

/// For in of left, as a value.
pub enum ForInOfLeftView {
    Variable(VariableDeclarationView),
    Pattern(PatternView),
    Expression(ExpressionView),
}

/// Switch statement, as a value.
pub struct SwitchStatementView {
    pub discriminant: ExpressionView,
    pub cases: Seq<SwitchCaseView>,
    pub span: Span,
}

/// Switch case, as a value.
pub struct SwitchCaseView {
    pub test: Option<ExpressionView>,
    pub consequent: Seq<StatementView>,
    pub span: Span,
}

/// Return statement, as a value.
pub struct ReturnStatementView {
    pub argument: Option<ExpressionView>,
    pub span: Span,
}

/// Throw statement, as a value.
pub struct ThrowStatementView {
    pub argument: ExpressionView,
    pub span: Span,
}

/// Try statement, as a value.
pub struct TryStatementView {
    pub block: BlockStatementView,
    pub handler: Option<CatchClauseView>,
    pub finalizer: Option<BlockStatementView>,
    pub span: Span,
}

/// Catch clause, as a value.
pub struct CatchClauseView {
    pub param: Option<PatternView>,
    pub body: BlockStatementView,
    pub span: Span,
}

/// With statement, as a value.
pub struct WithStatementView {
    pub object: ExpressionView,
    pub body: StatementView,
    pub span: Span,
}

/// Labeled statement, as a value.
pub struct LabeledStatementView {
    pub label: StringId,
    pub body: StatementView,
    pub span: Span,
}

/// Variable declaration, as a value.
pub struct VariableDeclarationView {
    pub kind: VarKind,
    pub declarations: Seq<VariableDeclaratorView>,
    pub span: Span,
}

/// Variable declarator, as a value.
pub struct VariableDeclaratorView {
    pub id: PatternView,
    pub init: Option<ExpressionView>,
    pub span: Span,
}

/// Function declaration, as a value.
pub struct FunctionDeclarationView {
    pub id: Option<StringId>,
    pub params: Seq<PatternView>,
    pub body: BlockStatementView,
    pub is_async: bool,
    pub is_generator: bool,
    pub span: Span,
}

/// Class declaration, as a value.
pub struct ClassDeclarationView {
    pub id: Option<StringId>,
    pub super_class: Option<ExpressionView>,
    pub body: ClassBodyView,
    pub span: Span,
}

/// Class body, as a value.
pub struct ClassBodyView {
    pub body: Seq<ClassMemberView>,
    pub span: Span,
}

/// Class member, as a value.
pub enum ClassMemberView {
    Method(MethodDefinitionView),
    Property(ClassPropertyView),
    StaticBlock(BlockStatementView),
}

/// Method definition, as a value.
pub struct MethodDefinitionView {
    pub key: PropertyKeyView,
    pub value: ExpressionView,
    pub kind: MethodKind,
    pub is_static: bool,
    pub computed: bool,
    pub span: Span,
}

/// Class property, as a value.
pub struct ClassPropertyView {
    pub key: PropertyKeyView,
    pub value: Option<ExpressionView>,
    pub is_static: bool,
    pub computed: bool,
    pub span: Span,
}

/// Expression, as a value.
pub enum ExpressionView {
    NumberLiteral(NumberLiteral),
    BigIntLiteral(BigIntLiteral),
    StringLiteral(StringLiteral),
    BooleanLiteral(BooleanLiteral),
    NullLiteral(Span),
    RegExpLiteral(RegExpLiteral),
    TemplateLiteral(TemplateLiteralView),
    Identifier(Identifier),
    This(Span),
    Array(ArrayExpressionView),
    Object(ObjectExpressionView),
    Function(Box<FunctionExpressionView>),
    ArrowFunction(Box<ArrowFunctionExpressionView>),
    Class(Box<ClassExpressionView>),
    Unary(Box<UnaryExpressionView>),
    Update(Box<UpdateExpressionView>),
    Binary(Box<BinaryExpressionView>),
    Logical(Box<LogicalExpressionView>),
    Conditional(Box<ConditionalExpressionView>),
    Assignment(Box<AssignmentExpressionView>),
    Sequence(SequenceExpressionView),
    Member(Box<MemberExpressionView>),
    Call(Box<CallExpressionView>),
    New(Box<NewExpressionView>),
    TaggedTemplate(Box<TaggedTemplateExpressionView>),
    OptionalChain(Box<OptionalChainExpressionView>),
    Spread(Box<SpreadElementView>),
    Yield(Box<YieldExpressionView>),
    Await(Box<AwaitExpressionView>),
    MetaProperty(MetaProperty),
    Import(Box<ImportExpressionView>),
    Super(Span),
}

/// Template literal, as a value.
pub struct TemplateLiteralView {
    pub quasis: Seq<TemplateElement>,
    pub expressions: Seq<ExpressionView>,
    pub span: Span,
}

/// Array expression, as a value.
pub struct ArrayExpressionView {
    pub elements: Seq<Option<ExpressionView>>,
    pub span: Span,
}

/// Object expression, as a value.
pub struct ObjectExpressionView {
    pub properties: Seq<ObjectPropertyView>,
    pub span: Span,
}

/// Object property, as a value.
pub enum ObjectPropertyView {
    Property(PropertyView),
    SpreadElement(SpreadElementView),
}

/// Property, as a value.
pub struct PropertyView {
    pub key: PropertyKeyView,
    pub value: ExpressionView,
    pub kind: PropertyKindVal,
    pub shorthand: bool,
    pub computed: bool,
    pub method: bool,
    pub span: Span,
}

/// Property key, as a value.
pub enum PropertyKeyView {
    Identifier(StringId),
    StringLiteral(StringId),
    NumberLiteral(u64),
    Computed(Box<ExpressionView>),
    Private(StringId),
}

/// Function expression, as a value.
pub struct FunctionExpressionView {
    pub id: Option<StringId>,
    pub params: Seq<PatternView>,
    pub body: BlockStatementView,
    pub is_async: bool,
    pub is_generator: bool,
    pub span: Span,
}

/// Arrow function expression, as a value.
pub struct ArrowFunctionExpressionView {
    pub params: Seq<PatternView>,
    pub body: ArrowBodyView,
    pub is_async: bool,
    pub span: Span,
}

/// Arrow body, as a value.
pub enum ArrowBodyView {
    Expression(ExpressionView),
    Block(BlockStatementView),
}

/// Class expression, as a value.
pub struct ClassExpressionView {
    pub id: Option<StringId>,
    pub super_class: Option<ExpressionView>,
    pub body: ClassBodyView,
    pub span: Span,
}

/// Unary expression, as a value.
pub struct UnaryExpressionView {
    pub operator: UnaryOperator,
    pub argument: ExpressionView,
    pub prefix: bool,
    pub span: Span,
}

/// Update expression, as a value.
pub struct UpdateExpressionView {
    pub operator: UpdateOperator,
    pub argument: ExpressionView,
    pub prefix: bool,
    pub span: Span,
}

/// Binary expression, as a value.
pub struct BinaryExpressionView {
    pub operator: BinaryOperator,
    pub left: ExpressionView,
    pub right: ExpressionView,
    pub span: Span,
}

/// Logical expression, as a value.
pub struct LogicalExpressionView {
    pub operator: LogicalOperator,
    pub left: ExpressionView,
    pub right: ExpressionView,
    pub span: Span,
}

/// Conditional expression, as a value.
pub struct ConditionalExpressionView {
    pub test: ExpressionView,
    pub consequent: ExpressionView,
    pub alternate: ExpressionView,
    pub span: Span,
}

/// Assignment expression, as a value.
pub struct AssignmentExpressionView {
    pub operator: AssignmentOperator,
    pub left: AssignmentTargetView,
    pub right: ExpressionView,
    pub span: Span,
}

/// Assignment target, as a value.
pub enum AssignmentTargetView {
    Identifier(Identifier),
    Member(Box<MemberExpressionView>),
    Pattern(PatternView),
}

/// Sequence expression, as a value.
pub struct SequenceExpressionView {
    pub expressions: Seq<ExpressionView>,
    pub span: Span,
}

/// Member expression, as a value.
pub struct MemberExpressionView {
    pub object: ExpressionView,
    pub property: MemberPropertyView,
    pub computed: bool,
    pub span: Span,
}

/// Member property, as a value.
pub enum MemberPropertyView {
    Identifier(StringId),
    Expression(ExpressionView),
    PrivateIdentifier(StringId),
}

/// Call expression, as a value.
pub struct CallExpressionView {
    pub callee: ExpressionView,
    pub arguments: Seq<ExpressionView>,
    pub span: Span,
}

/// New expression, as a value.
pub struct NewExpressionView {
    pub callee: ExpressionView,
    pub arguments: Seq<ExpressionView>,
    pub span: Span,
}

/// Tagged template expression, as a value.
pub struct TaggedTemplateExpressionView {
    pub tag: ExpressionView,
    pub quasi: TemplateLiteralView,
    pub span: Span,
}

/// Optional chain expression, as a value.
pub struct OptionalChainExpressionView {
    pub base: ExpressionView,
    pub chain: Seq<OptionalChainElementView>,
    pub span: Span,
}

/// Optional chain element, as a value.
pub enum OptionalChainElementView {
    Member { property: MemberPropertyView, computed: bool, optional: bool },
    Call { arguments: Seq<ExpressionView>, optional: bool },
}

/// Spread element, as a value.
pub struct SpreadElementView {
    pub argument: ExpressionView,
    pub span: Span,
}

/// Yield expression, as a value.
pub struct YieldExpressionView {
    pub argument: Option<ExpressionView>,
    pub delegate: bool,
    pub span: Span,
}

/// Await expression, as a value.
pub struct AwaitExpressionView {
    pub argument: ExpressionView,
    pub span: Span,
}

/// Import expression, as a value.
pub struct ImportExpressionView {
    pub source: ExpressionView,
    pub span: Span,
}

/// Pattern, as a value.
pub enum PatternView {
    Identifier(Identifier),
    Array(ArrayPatternView),
    Object(ObjectPatternView),
    Assignment(Box<AssignmentPatternView>),
    Rest(Box<RestElementView>),
    Member(Box<MemberExpressionView>),
}

/// Array pattern, as a value.
pub struct ArrayPatternView {
    pub elements: Seq<Option<PatternView>>,
    pub span: Span,
}

/// Object pattern, as a value.
pub struct ObjectPatternView {
    pub properties: Seq<ObjectPatternPropertyView>,
    pub span: Span,
}

/// Object pattern property, as a value.
pub enum ObjectPatternPropertyView {
    Property {
        key: PropertyKeyView,
        value: PatternView,
        computed: bool,
        shorthand: bool,
        span: Span,
    },
    Rest(RestElementView),
}

/// Assignment pattern, as a value.
pub struct AssignmentPatternView {
    pub left: PatternView,
    pub right: ExpressionView,
    pub span: Span,
}

/// Rest element, as a value.
pub struct RestElementView {
    pub argument: PatternView,
    pub span: Span,
}

/// Import declaration, as a value.
pub enum ImportDeclarationView {
    Standard { specifiers: Seq<ImportSpecifier>, source: StringId, span: Span },
}

/// Export declaration, as a value.
#[allow(inconsistent_fields)]
pub enum ExportDeclarationView {
    Named { specifiers: Seq<ExportSpecifier>, source: Option<StringId>, span: Span },
    Default { declaration: ExpressionView, span: Span },
    Declaration { declaration: Box<StatementView>, span: Span },
    All { source: StringId, exported: Option<StringId>, span: Span },
}

impl Program {
    /// The node as a value.
    pub open spec fn view(self) -> ProgramView {
        ProgramView { body: statements(self.body), source_type: self.source_type, span: self.span }
    }
}

impl Statement {
    /// The node as a value.
    pub open spec fn view(self) -> StatementView
        decreases self,
    {
        match self {
            Statement::Block(node) => StatementView::Block(
                BlockStatementView { body: statements(node.body), span: node.span },
            ),
            Statement::Variable(node) => StatementView::Variable(
                VariableDeclarationView {
                    kind: node.kind,
                    declarations: declarators(node.declarations),
                    span: node.span,
                },
            ),
            Statement::Empty(node) => StatementView::Empty(node),
            Statement::Expression(node) => StatementView::Expression(
                ExpressionStatementView { expression: node.expression.view(), span: node.span },
            ),
            Statement::If(node) => StatementView::If(
                Box::new(
                    IfStatementView {
                        test: (*node).test.view(),
                        consequent: (*node).consequent.view(),
                        alternate: optional_statement((*node).alternate),
                        span: (*node).span,
                    },
                ),
            ),
            Statement::While(node) => StatementView::While(
                Box::new(
                    WhileStatementView {
                        test: (*node).test.view(),
                        body: (*node).body.view(),
                        span: (*node).span,
                    },
                ),
            ),
            Statement::DoWhile(node) => StatementView::DoWhile(
                Box::new(
                    DoWhileStatementView {
                        body: (*node).body.view(),
                        test: (*node).test.view(),
                        span: (*node).span,
                    },
                ),
            ),
            Statement::For(node) => StatementView::For(
                Box::new(
                    ForStatementView {
                        init: optional_for_init((*node).init),
                        test: optional_expression((*node).test),
                        update: optional_expression((*node).update),
                        body: (*node).body.view(),
                        span: (*node).span,
                    },
                ),
            ),
            Statement::ForIn(node) => StatementView::ForIn(
                Box::new(
                    ForInStatementView {
                        left: (*node).left.view(),
                        right: (*node).right.view(),
                        body: (*node).body.view(),
                        span: (*node).span,
                    },
                ),
            ),
            Statement::ForOf(node) => StatementView::ForOf(
                Box::new(
                    ForOfStatementView {
                        left: (*node).left.view(),
                        right: (*node).right.view(),
                        body: (*node).body.view(),
                        is_await: (*node).is_await,
                        span: (*node).span,
                    },
                ),
            ),
            Statement::Switch(node) => StatementView::Switch(
                Box::new(
                    SwitchStatementView {
                        discriminant: (*node).discriminant.view(),
                        cases: switch_cases((*node).cases),
                        span: (*node).span,
                    },
                ),
            ),
            Statement::Return(node) => StatementView::Return(
                ReturnStatementView {
                    argument: optional_expression(node.argument),
                    span: node.span,
                },
            ),
            Statement::Break(node) => StatementView::Break(node),
            Statement::Continue(node) => StatementView::Continue(node),
            Statement::Throw(node) => StatementView::Throw(
                ThrowStatementView { argument: node.argument.view(), span: node.span },
            ),
            Statement::Try(node) => StatementView::Try(
                Box::new(
                    TryStatementView {
                        block: BlockStatementView {
                            body: statements((*node).block.body),
                            span: (*node).block.span,
                        },
                        handler: optional_catch_clause((*node).handler),
                        finalizer: optional_block_statement((*node).finalizer),
                        span: (*node).span,
                    },
                ),
            ),
            Statement::With(node) => StatementView::With(
                Box::new(
                    WithStatementView {
                        object: (*node).object.view(),
                        body: (*node).body.view(),
                        span: (*node).span,
                    },
                ),
            ),
            Statement::Labeled(node) => StatementView::Labeled(
                Box::new(
                    LabeledStatementView {
                        label: (*node).label,
                        body: (*node).body.view(),
                        span: (*node).span,
                    },
                ),
            ),
            Statement::Debugger(node) => StatementView::Debugger(node),
            Statement::Function(node) => StatementView::Function(
                FunctionDeclarationView {
                    id: node.id,
                    params: patterns(node.params),
                    body: BlockStatementView {
                        body: statements(node.body.body),
                        span: node.body.span,
                    },
                    is_async: node.is_async,
                    is_generator: node.is_generator,
                    span: node.span,
                },
            ),
            Statement::Class(node) => StatementView::Class(
                ClassDeclarationView {
                    id: node.id,
                    super_class: optional_expression(node.super_class),
                    body: ClassBodyView {
                        body: class_members(node.body.body),
                        span: node.body.span,
                    },
                    span: node.span,
                },
            ),
            Statement::Import(node) => StatementView::Import(node.view()),
            Statement::Export(node) => StatementView::Export(Box::new((*node).view())),
        }
    }
}

impl BlockStatement {
    /// The node as a value.
    pub open spec fn view(self) -> BlockStatementView {
        BlockStatementView { body: statements(self.body), span: self.span }
    }
}

impl ExpressionStatement {
    /// The node as a value.
    pub open spec fn view(self) -> ExpressionStatementView {
        ExpressionStatementView { expression: self.expression.view(), span: self.span }
    }
}

impl IfStatement {
    /// The node as a value.
    pub open spec fn view(self) -> IfStatementView {
        IfStatementView {
            test: self.test.view(),
            consequent: self.consequent.view(),
            alternate: optional_statement(self.alternate),
            span: self.span,
        }
    }
}

impl WhileStatement {
    /// The node as a value.
    pub open spec fn view(self) -> WhileStatementView {
        WhileStatementView { test: self.test.view(), body: self.body.view(), span: self.span }
    }
}

impl DoWhileStatement {
    /// The node as a value.
    pub open spec fn view(self) -> DoWhileStatementView {
        DoWhileStatementView { body: self.body.view(), test: self.test.view(), span: self.span }
    }
}

impl ForStatement {
    /// The node as a value.
    pub open spec fn view(self) -> ForStatementView {
        ForStatementView {
            init: optional_for_init(self.init),
            test: optional_expression(self.test),
            update: optional_expression(self.update),
            body: self.body.view(),
            span: self.span,
        }
    }
}

impl ForInit {
    /// The node as a value.
    pub open spec fn view(self) -> ForInitView
        decreases self,
    {
        match self {
            ForInit::Variable(node) => ForInitView::Variable(
                VariableDeclarationView {
                    kind: node.kind,
                    declarations: declarators(node.declarations),
                    span: node.span,
                },
            ),
            ForInit::Expression(node) => ForInitView::Expression(node.view()),
        }
    }
}

impl ForInStatement {
    /// The node as a value.
    pub open spec fn view(self) -> ForInStatementView {
        ForInStatementView {
            left: self.left.view(),
            right: self.right.view(),
            body: self.body.view(),
            span: self.span,
        }
    }
}

impl ForOfStatement {
    /// The node as a value.
    pub open spec fn view(self) -> ForOfStatementView {
        ForOfStatementView {
            left: self.left.view(),
            right: self.right.view(),
            body: self.body.view(),
            is_await: self.is_await,
            span: self.span,
        }
    }
}

impl ForInOfLeft {
    /// The node as a value.
    pub open spec fn view(self) -> ForInOfLeftView
        decreases self,
    {
        match self {
            ForInOfLeft::Variable(node) => ForInOfLeftView::Variable(
                VariableDeclarationView {
                    kind: node.kind,
                    declarations: declarators(node.declarations),
                    span: node.span,
                },
            ),
            ForInOfLeft::Pattern(node) => ForInOfLeftView::Pattern(node.view()),
            ForInOfLeft::Expression(node) => ForInOfLeftView::Expression(node.view()),
        }
    }
}

impl SwitchStatement {
    /// The node as a value.
    pub open spec fn view(self) -> SwitchStatementView {
        SwitchStatementView {
            discriminant: self.discriminant.view(),
            cases: switch_cases(self.cases),
            span: self.span,
        }
    }
}

impl SwitchCase {
    /// The node as a value.
    pub open spec fn view(self) -> SwitchCaseView {
        SwitchCaseView {
            test: optional_expression(self.test),
            consequent: statements(self.consequent),
            span: self.span,
        }
    }
}

impl ReturnStatement {
    /// The node as a value.
    pub open spec fn view(self) -> ReturnStatementView {
        ReturnStatementView { argument: optional_expression(self.argument), span: self.span }
    }
}

impl ThrowStatement {
    /// The node as a value.
    pub open spec fn view(self) -> ThrowStatementView {
        ThrowStatementView { argument: self.argument.view(), span: self.span }
    }
}

impl TryStatement {
    /// The node as a value.
    pub open spec fn view(self) -> TryStatementView {
        TryStatementView {
            block: BlockStatementView { body: statements(self.block.body), span: self.block.span },
            handler: optional_catch_clause(self.handler),
            finalizer: optional_block_statement(self.finalizer),
            span: self.span,
        }
    }
}

impl CatchClause {
    /// The node as a value.
    pub open spec fn view(self) -> CatchClauseView {
        CatchClauseView {
            param: optional_pattern(self.param),
            body: BlockStatementView { body: statements(self.body.body), span: self.body.span },
            span: self.span,
        }
    }
}

impl WithStatement {
    /// The node as a value.
    pub open spec fn view(self) -> WithStatementView {
        WithStatementView { object: self.object.view(), body: self.body.view(), span: self.span }
    }
}

impl LabeledStatement {
    /// The node as a value.
    pub open spec fn view(self) -> LabeledStatementView {
        LabeledStatementView { label: self.label, body: self.body.view(), span: self.span }
    }
}

impl VariableDeclaration {
    /// The node as a value.
    pub open spec fn view(self) -> VariableDeclarationView {
        VariableDeclarationView {
            kind: self.kind,
            declarations: declarators(self.declarations),
            span: self.span,
        }
    }
}

impl VariableDeclarator {
    /// The node as a value.
    pub open spec fn view(self) -> VariableDeclaratorView {
        VariableDeclaratorView {
            id: self.id.view(),
            init: optional_expression(self.init),
            span: self.span,
        }
    }
}

impl FunctionDeclaration {
    /// The node as a value.
    pub open spec fn view(self) -> FunctionDeclarationView {
        FunctionDeclarationView {
            id: self.id,
            params: patterns(self.params),
            body: BlockStatementView { body: statements(self.body.body), span: self.body.span },
            is_async: self.is_async,
            is_generator: self.is_generator,
            span: self.span,
        }
    }
}

impl ClassDeclaration {
    /// The node as a value.
    pub open spec fn view(self) -> ClassDeclarationView {
        ClassDeclarationView {
            id: self.id,
            super_class: optional_expression(self.super_class),
            body: ClassBodyView { body: class_members(self.body.body), span: self.body.span },
            span: self.span,
        }
    }
}

impl ClassBody {
    /// The node as a value.
    pub open spec fn view(self) -> ClassBodyView {
        ClassBodyView { body: class_members(self.body), span: self.span }
    }
}

impl ClassMember {
    /// The node as a value.
    pub open spec fn view(self) -> ClassMemberView
        decreases self,
    {
        match self {
            ClassMember::Method(node) => ClassMemberView::Method(
                MethodDefinitionView {
                    key: node.key.view(),
                    value: node.value.view(),
                    kind: node.kind,
                    is_static: node.is_static,
                    computed: node.computed,
                    span: node.span,
                },
            ),
            ClassMember::Property(node) => ClassMemberView::Property(
                ClassPropertyView {
                    key: node.key.view(),
                    value: optional_expression(node.value),
                    is_static: node.is_static,
                    computed: node.computed,
                    span: node.span,
                },
            ),
            ClassMember::StaticBlock(node) => ClassMemberView::StaticBlock(
                BlockStatementView { body: statements(node.body), span: node.span },
            ),
        }
    }
}

impl MethodDefinition {
    /// The node as a value.
    pub open spec fn view(self) -> MethodDefinitionView {
        MethodDefinitionView {
            key: self.key.view(),
            value: self.value.view(),
            kind: self.kind,
            is_static: self.is_static,
            computed: self.computed,
            span: self.span,
        }
    }
}

impl ClassProperty {
    /// The node as a value.
    pub open spec fn view(self) -> ClassPropertyView {
        ClassPropertyView {
            key: self.key.view(),
            value: optional_expression(self.value),
            is_static: self.is_static,
            computed: self.computed,
            span: self.span,
        }
    }
}

impl Expression {
    /// The node as a value.
    pub open spec fn view(self) -> ExpressionView
        decreases self,
    {
        match self {
            Expression::NumberLiteral(node) => ExpressionView::NumberLiteral(node),
            Expression::BigIntLiteral(node) => ExpressionView::BigIntLiteral(node),
            Expression::StringLiteral(node) => ExpressionView::StringLiteral(node),
            Expression::BooleanLiteral(node) => ExpressionView::BooleanLiteral(node),
            Expression::NullLiteral(node) => ExpressionView::NullLiteral(node),
            Expression::RegExpLiteral(node) => ExpressionView::RegExpLiteral(node),
            Expression::TemplateLiteral(node) => ExpressionView::TemplateLiteral(
                TemplateLiteralView {
                    quasis: node.quasis@,
                    expressions: expressions(node.expressions),
                    span: node.span,
                },
            ),
            Expression::Identifier(node) => ExpressionView::Identifier(node),
            Expression::This(node) => ExpressionView::This(node),
            Expression::Array(node) => ExpressionView::Array(
                ArrayExpressionView { elements: elements(node.elements), span: node.span },
            ),
            Expression::Object(node) => ExpressionView::Object(
                ObjectExpressionView {
                    properties: object_properties(node.properties),
                    span: node.span,
                },
            ),
            Expression::Function(node) => ExpressionView::Function(
                Box::new(
                    FunctionExpressionView {
                        id: (*node).id,
                        params: patterns((*node).params),
                        body: BlockStatementView {
                            body: statements((*node).body.body),
                            span: (*node).body.span,
                        },
                        is_async: (*node).is_async,
                        is_generator: (*node).is_generator,
                        span: (*node).span,
                    },
                ),
            ),
            Expression::ArrowFunction(node) => ExpressionView::ArrowFunction(
                Box::new(
                    ArrowFunctionExpressionView {
                        params: patterns((*node).params),
                        body: (*node).body.view(),
                        is_async: (*node).is_async,
                        span: (*node).span,
                    },
                ),
            ),
            Expression::Class(node) => ExpressionView::Class(
                Box::new(
                    ClassExpressionView {
                        id: (*node).id,
                        super_class: optional_expression((*node).super_class),
                        body: ClassBodyView {
                            body: class_members((*node).body.body),
                            span: (*node).body.span,
                        },
                        span: (*node).span,
                    },
                ),
            ),
            Expression::Unary(node) => ExpressionView::Unary(
                Box::new(
                    UnaryExpressionView {
                        operator: (*node).operator,
                        argument: (*node).argument.view(),
                        prefix: (*node).prefix,
                        span: (*node).span,
                    },
                ),
            ),
            Expression::Update(node) => ExpressionView::Update(
                Box::new(
                    UpdateExpressionView {
                        operator: (*node).operator,
                        argument: (*node).argument.view(),
                        prefix: (*node).prefix,
                        span: (*node).span,
                    },
                ),
            ),
            Expression::Binary(node) => ExpressionView::Binary(
                Box::new(
                    BinaryExpressionView {
                        operator: (*node).operator,
                        left: (*node).left.view(),
                        right: (*node).right.view(),
                        span: (*node).span,
                    },
                ),
            ),
            Expression::Logical(node) => ExpressionView::Logical(
                Box::new(
                    LogicalExpressionView {
                        operator: (*node).operator,
                        left: (*node).left.view(),
                        right: (*node).right.view(),
                        span: (*node).span,
                    },
                ),
            ),
            Expression::Conditional(node) => ExpressionView::Conditional(
                Box::new(
                    ConditionalExpressionView {
                        test: (*node).test.view(),
                        consequent: (*node).consequent.view(),
                        alternate: (*node).alternate.view(),
                        span: (*node).span,
                    },
                ),
            ),
            Expression::Assignment(node) => ExpressionView::Assignment(
                Box::new(
                    AssignmentExpressionView {
                        operator: (*node).operator,
                        left: (*node).left.view(),
                        right: (*node).right.view(),
                        span: (*node).span,
                    },
                ),
            ),
            Expression::Sequence(node) => ExpressionView::Sequence(
                SequenceExpressionView {
                    expressions: expressions(node.expressions),
                    span: node.span,
                },
            ),
            Expression::Member(node) => ExpressionView::Member(
                Box::new(
                    MemberExpressionView {
                        object: (*node).object.view(),
                        property: (*node).property.view(),
                        computed: (*node).computed,
                        span: (*node).span,
                    },
                ),
            ),
            Expression::Call(node) => ExpressionView::Call(
                Box::new(
                    CallExpressionView {
                        callee: (*node).callee.view(),
                        arguments: expressions((*node).arguments),
                        span: (*node).span,
                    },
                ),
            ),
            Expression::New(node) => ExpressionView::New(
                Box::new(
                    NewExpressionView {
                        callee: (*node).callee.view(),
                        arguments: expressions((*node).arguments),
                        span: (*node).span,
                    },
                ),
            ),
            Expression::TaggedTemplate(node) => ExpressionView::TaggedTemplate(
                Box::new(
                    TaggedTemplateExpressionView {
                        tag: (*node).tag.view(),
                        quasi: TemplateLiteralView {
                            quasis: (*node).quasi.quasis@,
                            expressions: expressions((*node).quasi.expressions),
                            span: (*node).quasi.span,
                        },
                        span: (*node).span,
                    },
                ),
            ),
            Expression::OptionalChain(node) => ExpressionView::OptionalChain(
                Box::new(
                    OptionalChainExpressionView {
                        base: (*node).base.view(),
                        chain: chain_elements((*node).chain),
                        span: (*node).span,
                    },
                ),
            ),
            Expression::Spread(node) => ExpressionView::Spread(
                Box::new(
                    SpreadElementView { argument: (*node).argument.view(), span: (*node).span },
                ),
            ),
            Expression::Yield(node) => ExpressionView::Yield(
                Box::new(
                    YieldExpressionView {
                        argument: optional_expression((*node).argument),
                        delegate: (*node).delegate,
                        span: (*node).span,
                    },
                ),
            ),
            Expression::Await(node) => ExpressionView::Await(
                Box::new(
                    AwaitExpressionView { argument: (*node).argument.view(), span: (*node).span },
                ),
            ),
            Expression::MetaProperty(node) => ExpressionView::MetaProperty(node),
            Expression::Import(node) => ExpressionView::Import(
                Box::new(
                    ImportExpressionView { source: (*node).source.view(), span: (*node).span },
                ),
            ),
            Expression::Super(node) => ExpressionView::Super(node),
        }
    }
}

impl TemplateLiteral {
    /// The node as a value.
    pub open spec fn view(self) -> TemplateLiteralView {
        TemplateLiteralView {
            quasis: self.quasis@,
            expressions: expressions(self.expressions),
            span: self.span,
        }
    }
}

impl ArrayExpression {
    /// The node as a value.
    pub open spec fn view(self) -> ArrayExpressionView {
        ArrayExpressionView { elements: elements(self.elements), span: self.span }
    }
}

impl ObjectExpression {
    /// The node as a value.
    pub open spec fn view(self) -> ObjectExpressionView {
        ObjectExpressionView { properties: object_properties(self.properties), span: self.span }
    }
}

impl ObjectProperty {
    /// The node as a value.
    pub open spec fn view(self) -> ObjectPropertyView
        decreases self,
    {
        match self {
            ObjectProperty::Property(node) => ObjectPropertyView::Property(
                PropertyView {
                    key: node.key.view(),
                    value: node.value.view(),
                    kind: node.kind,
                    shorthand: node.shorthand,
                    computed: node.computed,
                    method: node.method,
                    span: node.span,
                },
            ),
            ObjectProperty::SpreadElement(node) => ObjectPropertyView::SpreadElement(
                SpreadElementView { argument: node.argument.view(), span: node.span },
            ),
        }
    }
}

impl Property {
    /// The node as a value.
    pub open spec fn view(self) -> PropertyView {
        PropertyView {
            key: self.key.view(),
            value: self.value.view(),
            kind: self.kind,
            shorthand: self.shorthand,
            computed: self.computed,
            method: self.method,
            span: self.span,
        }
    }
}

impl PropertyKey {
    /// The node as a value.
    pub open spec fn view(self) -> PropertyKeyView
        decreases self,
    {
        match self {
            PropertyKey::Identifier(node) => PropertyKeyView::Identifier(node),
            PropertyKey::StringLiteral(node) => PropertyKeyView::StringLiteral(node),
            PropertyKey::NumberLiteral(node) => PropertyKeyView::NumberLiteral(node),
            PropertyKey::Computed(node) => PropertyKeyView::Computed(Box::new((*node).view())),
            PropertyKey::Private(node) => PropertyKeyView::Private(node),
        }
    }
}

impl FunctionExpression {
    /// The node as a value.
    pub open spec fn view(self) -> FunctionExpressionView {
        FunctionExpressionView {
            id: self.id,
            params: patterns(self.params),
            body: BlockStatementView { body: statements(self.body.body), span: self.body.span },
            is_async: self.is_async,
            is_generator: self.is_generator,
            span: self.span,
        }
    }
}

impl ArrowFunctionExpression {
    /// The node as a value.
    pub open spec fn view(self) -> ArrowFunctionExpressionView {
        ArrowFunctionExpressionView {
            params: patterns(self.params),
            body: self.body.view(),
            is_async: self.is_async,
            span: self.span,
        }
    }
}

impl ArrowBody {
    /// The node as a value.
    pub open spec fn view(self) -> ArrowBodyView
        decreases self,
    {
        match self {
            ArrowBody::Expression(node) => ArrowBodyView::Expression(node.view()),
            ArrowBody::Block(node) => ArrowBodyView::Block(
                BlockStatementView { body: statements(node.body), span: node.span },
            ),
        }
    }
}

impl ClassExpression {
    /// The node as a value.
    pub open spec fn view(self) -> ClassExpressionView {
        ClassExpressionView {
            id: self.id,
            super_class: optional_expression(self.super_class),
            body: ClassBodyView { body: class_members(self.body.body), span: self.body.span },
            span: self.span,
        }
    }
}

impl UnaryExpression {
    /// The node as a value.
    pub open spec fn view(self) -> UnaryExpressionView {
        UnaryExpressionView {
            operator: self.operator,
            argument: self.argument.view(),
            prefix: self.prefix,
            span: self.span,
        }
    }
}

impl UpdateExpression {
    /// The node as a value.
    pub open spec fn view(self) -> UpdateExpressionView {
        UpdateExpressionView {
            operator: self.operator,
            argument: self.argument.view(),
            prefix: self.prefix,
            span: self.span,
        }
    }
}

impl BinaryExpression {
    /// The node as a value.
    pub open spec fn view(self) -> BinaryExpressionView {
        BinaryExpressionView {
            operator: self.operator,
            left: self.left.view(),
            right: self.right.view(),
            span: self.span,
        }
    }
}

impl LogicalExpression {
    /// The node as a value.
    pub open spec fn view(self) -> LogicalExpressionView {
        LogicalExpressionView {
            operator: self.operator,
            left: self.left.view(),
            right: self.right.view(),
            span: self.span,
        }
    }
}

impl ConditionalExpression {
    /// The node as a value.
    pub open spec fn view(self) -> ConditionalExpressionView {
        ConditionalExpressionView {
            test: self.test.view(),
            consequent: self.consequent.view(),
            alternate: self.alternate.view(),
            span: self.span,
        }
    }
}

impl AssignmentExpression {
    /// The node as a value.
    pub open spec fn view(self) -> AssignmentExpressionView {
        AssignmentExpressionView {
            operator: self.operator,
            left: self.left.view(),
            right: self.right.view(),
            span: self.span,
        }
    }
}

impl AssignmentTarget {
    /// The node as a value.
    pub open spec fn view(self) -> AssignmentTargetView
        decreases self,
    {
        match self {
            AssignmentTarget::Identifier(node) => AssignmentTargetView::Identifier(node),
            AssignmentTarget::Member(node) => AssignmentTargetView::Member(
                Box::new(
                    MemberExpressionView {
                        object: (*node).object.view(),
                        property: (*node).property.view(),
                        computed: (*node).computed,
                        span: (*node).span,
                    },
                ),
            ),
            AssignmentTarget::Pattern(node) => AssignmentTargetView::Pattern(node.view()),
        }
    }
}

impl SequenceExpression {
    /// The node as a value.
    pub open spec fn view(self) -> SequenceExpressionView {
        SequenceExpressionView { expressions: expressions(self.expressions), span: self.span }
    }
}

impl MemberExpression {
    /// The node as a value.
    pub open spec fn view(self) -> MemberExpressionView {
        MemberExpressionView {
            object: self.object.view(),
            property: self.property.view(),
            computed: self.computed,
            span: self.span,
        }
    }
}

impl MemberProperty {
    /// The node as a value.
    pub open spec fn view(self) -> MemberPropertyView
        decreases self,
    {
        match self {
            MemberProperty::Identifier(node) => MemberPropertyView::Identifier(node),
            MemberProperty::Expression(node) => MemberPropertyView::Expression(node.view()),
            MemberProperty::PrivateIdentifier(node) => MemberPropertyView::PrivateIdentifier(node),
        }
    }
}

impl CallExpression {
    /// The node as a value.
    pub open spec fn view(self) -> CallExpressionView {
        CallExpressionView {
            callee: self.callee.view(),
            arguments: expressions(self.arguments),
            span: self.span,
        }
    }
}

impl NewExpression {
    /// The node as a value.
    pub open spec fn view(self) -> NewExpressionView {
        NewExpressionView {
            callee: self.callee.view(),
            arguments: expressions(self.arguments),
            span: self.span,
        }
    }
}

impl TaggedTemplateExpression {
    /// The node as a value.
    pub open spec fn view(self) -> TaggedTemplateExpressionView {
        TaggedTemplateExpressionView {
            tag: self.tag.view(),
            quasi: TemplateLiteralView {
                quasis: self.quasi.quasis@,
                expressions: expressions(self.quasi.expressions),
                span: self.quasi.span,
            },
            span: self.span,
        }
    }
}

impl OptionalChainExpression {
    /// The node as a value.
    pub open spec fn view(self) -> OptionalChainExpressionView {
        OptionalChainExpressionView {
            base: self.base.view(),
            chain: chain_elements(self.chain),
            span: self.span,
        }
    }
}

impl OptionalChainElement {
    /// The node as a value.
    pub open spec fn view(self) -> OptionalChainElementView
        decreases self,
    {
        match self {
            OptionalChainElement::Member {
                property,
                computed,
                optional,
            } => OptionalChainElementView::Member { property: property.view(), computed, optional },
            OptionalChainElement::Call { arguments, optional } => OptionalChainElementView::Call {
                arguments: expressions(arguments),
                optional,
            },
        }
    }
}

impl SpreadElement {
    /// The node as a value.
    pub open spec fn view(self) -> SpreadElementView {
        SpreadElementView { argument: self.argument.view(), span: self.span }
    }
}

impl YieldExpression {
    /// The node as a value.
    pub open spec fn view(self) -> YieldExpressionView {
        YieldExpressionView {
            argument: optional_expression(self.argument),
            delegate: self.delegate,
            span: self.span,
        }
    }
}

impl AwaitExpression {
    /// The node as a value.
    pub open spec fn view(self) -> AwaitExpressionView {
        AwaitExpressionView { argument: self.argument.view(), span: self.span }
    }
}

impl ImportExpression {
    /// The node as a value.
    pub open spec fn view(self) -> ImportExpressionView {
        ImportExpressionView { source: self.source.view(), span: self.span }
    }
}

impl Pattern {
    /// The node as a value.
    pub open spec fn view(self) -> PatternView
        decreases self,
    {
        match self {
            Pattern::Identifier(node) => PatternView::Identifier(node),
            Pattern::Array(node) => PatternView::Array(
                ArrayPatternView { elements: pattern_elements(node.elements), span: node.span },
            ),
            Pattern::Object(node) => PatternView::Object(
                ObjectPatternView {
                    properties: pattern_properties(node.properties),
                    span: node.span,
                },
            ),
            Pattern::Assignment(node) => PatternView::Assignment(
                Box::new(
                    AssignmentPatternView {
                        left: (*node).left.view(),
                        right: (*node).right.view(),
                        span: (*node).span,
                    },
                ),
            ),
            Pattern::Rest(node) => PatternView::Rest(
                Box::new(RestElementView { argument: (*node).argument.view(), span: (*node).span }),
            ),
            Pattern::Member(node) => PatternView::Member(
                Box::new(
                    MemberExpressionView {
                        object: (*node).object.view(),
                        property: (*node).property.view(),
                        computed: (*node).computed,
                        span: (*node).span,
                    },
                ),
            ),
        }
    }
}

impl ArrayPattern {
    /// The node as a value.
    pub open spec fn view(self) -> ArrayPatternView {
        ArrayPatternView { elements: pattern_elements(self.elements), span: self.span }
    }
}

impl ObjectPattern {
    /// The node as a value.
    pub open spec fn view(self) -> ObjectPatternView {
        ObjectPatternView { properties: pattern_properties(self.properties), span: self.span }
    }
}

impl ObjectPatternProperty {
    /// The node as a value.
    pub open spec fn view(self) -> ObjectPatternPropertyView
        decreases self,
    {
        match self {
            ObjectPatternProperty::Property {
                key,
                value,
                computed,
                shorthand,
                span,
            } => ObjectPatternPropertyView::Property {
                key: key.view(),
                value: value.view(),
                computed,
                shorthand,
                span,
            },
            ObjectPatternProperty::Rest(node) => ObjectPatternPropertyView::Rest(
                RestElementView { argument: node.argument.view(), span: node.span },
            ),
        }
    }
}

impl AssignmentPattern {
    /// The node as a value.
    pub open spec fn view(self) -> AssignmentPatternView {
        AssignmentPatternView { left: self.left.view(), right: self.right.view(), span: self.span }
    }
}

impl RestElement {
    /// The node as a value.
    pub open spec fn view(self) -> RestElementView {
        RestElementView { argument: self.argument.view(), span: self.span }
    }
}

impl ImportDeclaration {
    /// The node as a value.
    pub open spec fn view(self) -> ImportDeclarationView
        decreases self,
    {
        match self {
            ImportDeclaration::Standard {
                specifiers,
                source,
                span,
            } => ImportDeclarationView::Standard { specifiers: specifiers@, source, span },
        }
    }
}

impl ExportDeclaration {
    /// The node as a value.
    pub open spec fn view(self) -> ExportDeclarationView
        decreases self,
    {
        match self {
            ExportDeclaration::Named { specifiers, source, span } => ExportDeclarationView::Named {
                specifiers: specifiers@,
                source,
                span,
            },
            ExportDeclaration::Default { declaration, span } => ExportDeclarationView::Default {
                declaration: declaration.view(),
                span,
            },
            ExportDeclaration::Declaration {
                declaration,
                span,
            } => ExportDeclarationView::Declaration {
                declaration: Box::new((*declaration).view()),
                span,
            },
            ExportDeclaration::All { source, exported, span } => ExportDeclarationView::All {
                source,
                exported,
                span,
            },
        }
    }
}

/// An optional node as a value.
pub open spec fn optional_statement(node: Option<Statement>) -> Option<StatementView>
    decreases node,
{
    match node {
        Some(node) => Some(node.view()),
        None => None,
    }
}

/// An optional node as a value.
pub open spec fn optional_for_init(node: Option<ForInit>) -> Option<ForInitView>
    decreases node,
{
    match node {
        Some(node) => Some(node.view()),
        None => None,
    }
}

/// An optional node as a value.
pub open spec fn optional_expression(node: Option<Expression>) -> Option<ExpressionView>
    decreases node,
{
    match node {
        Some(node) => Some(node.view()),
        None => None,
    }
}

/// An optional node as a value.
pub open spec fn optional_catch_clause(node: Option<CatchClause>) -> Option<CatchClauseView>
    decreases node,
{
    match node {
        Some(node) => Some(
            CatchClauseView {
                param: optional_pattern(node.param),
                body: BlockStatementView { body: statements(node.body.body), span: node.body.span },
                span: node.span,
            },
        ),
        None => None,
    }
}

/// An optional node as a value.
pub open spec fn optional_block_statement(
    node: Option<BlockStatement>,
) -> Option<BlockStatementView>
    decreases node,
{
    match node {
        Some(node) => Some(BlockStatementView { body: statements(node.body), span: node.span }),
        None => None,
    }
}

/// An optional node as a value.
pub open spec fn optional_pattern(node: Option<Pattern>) -> Option<PatternView>
    decreases node,
{
    match node {
        Some(node) => Some(node.view()),
        None => None,
    }
}

/// A list of nodes as a value.
pub open spec fn statements(list: Vec<Statement>) -> Seq<StatementView>
    decreases list,
{
    Seq::new(
        list@.len(),
        |i: int|
            if 0 <= i < list@.len() {
                list@[i].view()
            } else {
                arbitrary()
            },
    )
}

/// A list of nodes as a value.
pub open spec fn switch_cases(list: Vec<SwitchCase>) -> Seq<SwitchCaseView>
    decreases list,
{
    Seq::new(
        list@.len(),
        |i: int|
            if 0 <= i < list@.len() {
                SwitchCaseView {
                    test: optional_expression(list@[i].test),
                    consequent: statements(list@[i].consequent),
                    span: list@[i].span,
                }
            } else {
                arbitrary()
            },
    )
}

/// A list of nodes as a value.
pub open spec fn declarators(list: Vec<VariableDeclarator>) -> Seq<VariableDeclaratorView>
    decreases list,
{
    Seq::new(
        list@.len(),
        |i: int|
            if 0 <= i < list@.len() {
                VariableDeclaratorView {
                    id: list@[i].id.view(),
                    init: optional_expression(list@[i].init),
                    span: list@[i].span,
                }
            } else {
                arbitrary()
            },
    )
}

/// A list of nodes as a value.
pub open spec fn patterns(list: Vec<Pattern>) -> Seq<PatternView>
    decreases list,
{
    Seq::new(
        list@.len(),
        |i: int|
            if 0 <= i < list@.len() {
                list@[i].view()
            } else {
                arbitrary()
            },
    )
}

/// A list of nodes as a value.
pub open spec fn class_members(list: Vec<ClassMember>) -> Seq<ClassMemberView>
    decreases list,
{
    Seq::new(
        list@.len(),
        |i: int|
            if 0 <= i < list@.len() {
                list@[i].view()
            } else {
                arbitrary()
            },
    )
}

/// A list of nodes as a value.
pub open spec fn expressions(list: Vec<Expression>) -> Seq<ExpressionView>
    decreases list,
{
    Seq::new(
        list@.len(),
        |i: int|
            if 0 <= i < list@.len() {
                list@[i].view()
            } else {
                arbitrary()
            },
    )
}

/// A list of nodes as a value.
pub open spec fn elements(list: Vec<Option<Expression>>) -> Seq<Option<ExpressionView>>
    decreases list,
{
    Seq::new(
        list@.len(),
        |i: int|
            if 0 <= i < list@.len() {
                optional_expression(list@[i])
            } else {
                arbitrary()
            },
    )
}

/// A list of nodes as a value.
pub open spec fn object_properties(list: Vec<ObjectProperty>) -> Seq<ObjectPropertyView>
    decreases list,
{
    Seq::new(
        list@.len(),
        |i: int|
            if 0 <= i < list@.len() {
                list@[i].view()
            } else {
                arbitrary()
            },
    )
}

/// A list of nodes as a value.
pub open spec fn chain_elements(list: Vec<OptionalChainElement>) -> Seq<OptionalChainElementView>
    decreases list,
{
    Seq::new(
        list@.len(),
        |i: int|
            if 0 <= i < list@.len() {
                list@[i].view()
            } else {
                arbitrary()
            },
    )
}

/// A list of nodes as a value.
pub open spec fn pattern_elements(list: Vec<Option<Pattern>>) -> Seq<Option<PatternView>>
    decreases list,
{
    Seq::new(
        list@.len(),
        |i: int|
            if 0 <= i < list@.len() {
                optional_pattern(list@[i])
            } else {
                arbitrary()
            },
    )
}

/// A list of nodes as a value.
pub open spec fn pattern_properties(
    list: Vec<ObjectPatternProperty>,
) -> Seq<ObjectPatternPropertyView>
    decreases list,
{
    Seq::new(
        list@.len(),
        |i: int|
            if 0 <= i < list@.len() {
                list@[i].view()
            } else {
                arbitrary()
            },
    )
}

} // verus!
