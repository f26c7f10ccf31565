//! The relations of one table in generated code: the variants of its
//! relation enum and the items that link it to other entities.

use crate::analyzer::block::{IndexedRefBlock, IndexedRefBlockView};
use crate::analyzer::err::AnalysisError;
use crate::analyzer::RefDirection;
use crate::ast::refs::{Relation, RelationAction};
use crate::casing::{pascal_case, snake_case, to_pascal_case, to_snake_case};
use crate::compiler::entity::{attribute_line, sea_orm_attribute};
use crate::generator::{Block, BlockView};
use crate::text::push_text;
use vstd::prelude::*;
use vstd::string::StringExecFns;

verus! {

/// The names that the generated code of a relation is made of, each in the
/// letter case in which it is written there.
#[derive(Debug, PartialEq, Eq)]
pub struct CasedRef {
    /// The first column of the left side, in Pascal case.
    pub from_field: Option<String>,
    /// The first column of the right side, in Pascal case.
    pub to_field: Option<String>,
    /// The table at the other end, in Pascal case.
    pub other_pascal: String,
    /// The table at the other end, in snake case.
    pub other_snake: String,
    /// What happens on deletion, in Pascal case.
    pub on_delete: Option<String>,
    /// What happens on update, in Pascal case.
    pub on_update: Option<String>,
}

/// Mathematical model of a [`CasedRef`].
pub struct CasedRefView {
    pub from_field: Option<Seq<char>>,
    pub to_field: Option<Seq<char>>,
    pub other_pascal: Seq<char>,
    pub other_snake: Seq<char>,
    pub on_delete: Option<Seq<char>>,
    pub on_update: Option<Seq<char>>,
}

impl View for CasedRef {
    type V = CasedRefView;

    open spec fn view(&self) -> CasedRefView {
        CasedRefView {
            from_field: self.from_field.deep_view(),
            to_field: self.to_field.deep_view(),
            other_pascal: self.other_pascal@,
            other_snake: self.other_snake@,
            on_delete: self.on_delete.deep_view(),
            on_update: self.on_update.deep_view(),
        }
    }
}

/// The relation enum of a table under construction, and the items that link
/// the table to other entities.
#[derive(Debug, PartialEq, Eq)]
pub struct Relations {
    /// The relation enum.
    pub variants: Block,
    /// The items after the enum.
    pub links: Vec<Block>,
}

/// Mathematical model of [`Relations`].
pub struct RelationsView {
    pub variants: BlockView,
    pub links: Seq<BlockView>,
}

impl View for Relations {
    type V = RelationsView;

    open spec fn view(&self) -> RelationsView {
        RelationsView { variants: self.variants@, links: self.links.deep_view() }
    }
}

/// The action of a setting, in Pascal case.
pub open spec fn cased_action(action: Option<RelationAction>) -> Option<Seq<char>> {
    match action {
        Some(a) => Some(pascal_case(a.phrase())),
        None => None,
    }
}

/// The names that the generated code of a relation is made of. The table at
/// the other end is the left one for a relation that points at the table,
/// the right one otherwise.
pub open spec fn cased_ref(block: IndexedRefBlockView, way: RefDirection) -> CasedRefView {
    let other = if way == RefDirection::By {
        block.lhs.table
    } else {
        block.rhs.table
    };
    CasedRefView {
        from_field: if block.lhs.compositions.len() > 0 {
            Some(pascal_case(block.lhs.compositions[0]))
        } else {
            None
        },
        to_field: if block.rhs.compositions.len() > 0 {
            Some(pascal_case(block.rhs.compositions[0]))
        } else {
            None
        },
        other_pascal: pascal_case(other),
        other_snake: snake_case(other),
        on_delete: match block.settings {
            Some(s) => cased_action(s.on_delete),
            None => None,
        },
        on_update: match block.settings {
            Some(s) => cased_action(s.on_update),
            None => None,
        },
    }
}

/// The attributes with those of the actions added, deletion first.
pub open spec fn with_actions(attributes: Seq<Seq<char>>, names: CasedRefView) -> Seq<Seq<char>> {
    let a = match names.on_delete {
        Some(action) => attributes.push("on_delete = \""@ + action + "\""@),
        None => attributes,
    };
    match names.on_update {
        Some(action) => a.push("on_update = \""@ + action + "\""@),
        None => a,
    }
}

/// The attributes of a relation from a table to itself.
pub open spec fn self_attributes(from_field: Seq<char>, to_field: Seq<char>) -> Seq<Seq<char>> {
    Seq::<Seq<char>>::empty().push("belongs_to = \"Entity\""@).push(
        "from = \"Column::"@ + from_field + "\""@,
    ).push("to = \"Column::"@ + to_field + "\""@)
}

/// The attributes of a relation from a table to another.
pub open spec fn to_attributes(
    other_snake: Seq<char>,
    from_field: Seq<char>,
    to_field: Seq<char>,
) -> Seq<Seq<char>> {
    Seq::<Seq<char>>::empty().push("belongs_to = \"super::"@ + other_snake + "::Entity\""@).push(
        "from = \"Column::"@ + from_field + "\""@,
    ).push("to = \"super::"@ + other_snake + "::Column::"@ + to_field + "\""@)
}

/// The attribute line of a relation that points at the table: the other
/// table has one row or many, according to the relation's kind.
pub open spec fn by_attribute(rel: Relation, other_snake: Seq<char>) -> Option<Seq<char>> {
    match rel {
        Relation::One2One => Some("#[sea_orm(has_one = \"super::"@ + other_snake + "::Entity\")]"@),
        Relation::Many2One => Some(
            "#[sea_orm(has_many = \"super::"@ + other_snake + "::Entity\")]"@,
        ),
        _ => None,
    }
}

/// The item that says how the entity is related to another.
pub open spec fn related_link(other_snake: Seq<char>, other_pascal: Seq<char>) -> BlockView {
    BlockView::fresh(
        2,
        Some("impl Related<super::"@ + other_snake + "::Entity> for Entity"@),
    ).with_block(
        BlockView::fresh(3, Some("fn to() -> RelationDef"@)).with_line(
            "Relation::"@ + other_pascal + ".def()"@,
        ),
    )
}

/// The type that stands for the link of an entity to itself.
pub open spec fn self_link_type() -> BlockView {
    BlockView::fresh(2, Some("pub struct SelfReferencingLink"@))
}

/// The item that says how an entity is linked to itself.
pub open spec fn self_link() -> BlockView {
    BlockView::fresh(2, Some("impl Linked for SelfReferencingLink"@)).with_line(
        "type FromEntity = Entity;"@,
    ).with_line("type ToEntity = Entity;"@).with_skip(1).with_block(
        BlockView::fresh(3, Some("fn link(&self) -> Vec<RelationDef>"@)).with_line(
            "vec![Relation::SelfReferencing.def()]"@,
        ),
    )
}

/// The relations of a table with one more, given by its kind, its direction
/// and its names. A relation from the table needs a column on each side and
/// a kind with one owning side; a relation that points at the table needs
/// such a kind.
pub open spec fn add_cased(
    state: RelationsView,
    rel: Relation,
    way: RefDirection,
    names: CasedRefView,
) -> Result<RelationsView, AnalysisError> {
    match way {
        RefDirection::Itself => match (names.from_field, names.to_field) {
            (Some(from_field), Some(to_field)) => Ok(
                RelationsView {
                    variants: state.variants.with_line(
                        attribute_line(with_actions(self_attributes(from_field, to_field), names)),
                    ).with_line("SelfReferencing,"@),
                    links: state.links.push(self_link_type()).push(self_link()),
                },
            ),
            _ => Err(AnalysisError::UnsupportedCompositeReference),
        },
        RefDirection::To => match (names.from_field, names.to_field) {
            (Some(from_field), Some(to_field)) => if rel.has_owning_side() {
                Ok(
                    RelationsView {
                        variants: state.variants.with_line(
                            attribute_line(
                                with_actions(
                                    to_attributes(names.other_snake, from_field, to_field),
                                    names,
                                ),
                            ),
                        ).with_line(names.other_pascal + ","@),
                        links: state.links.push(
                            related_link(names.other_snake, names.other_pascal),
                        ),
                    },
                )
            } else {
                Err(AnalysisError::UnsupportedRelationKind)
            },
            _ => Err(AnalysisError::UnsupportedCompositeReference),
        },
        RefDirection::By => match by_attribute(rel, names.other_snake) {
            Some(line) => Ok(
                RelationsView {
                    variants: state.variants.with_line(line).with_line(names.other_pascal + ","@),
                    links: state.links.push(related_link(names.other_snake, names.other_pascal)),
                },
            ),
            None => Err(AnalysisError::UnsupportedRelationKind),
        },
    }
}

/// The relations of a table with one more.
pub open spec fn add_relation(
    state: RelationsView,
    block: IndexedRefBlockView,
    way: RefDirection,
) -> Result<RelationsView, AnalysisError> {
    add_cased(state, block.rel, way, cased_ref(block, way))
}

/// The relations of a table with those from `from` on added, in order.
pub open spec fn add_relations(
    state: RelationsView,
    blocks: Seq<IndexedRefBlockView>,
    way: RefDirection,
    from: int,
) -> Result<RelationsView, AnalysisError>
    decreases blocks.len() - from,
{
    if from < 0 || from >= blocks.len() {
        Ok(state)
    } else {
        match add_relation(state, blocks[from], way) {
            Err(e) => Err(e),
            Ok(next) => add_relations(next, blocks, way, from + 1),
        }
    }
}

/// Adds a block to a list of blocks.
pub fn push_block(list: &mut Vec<Block>, block: Block)
    ensures
        final(list).deep_view() == old(list).deep_view().push(block@),
{
    let ghost before = list.deep_view();
    list.push(block);
    assert(list.deep_view() =~= before.push(block@));
}

/// The attributes with those of the actions added, deletion first.
pub fn add_actions(attributes: &mut Vec<String>, names: &CasedRef)
    ensures
        final(attributes).deep_view() == with_actions(old(attributes).deep_view(), names@),
{
    match &names.on_delete {
        Some(action) => {
            let mut text = "on_delete = \"".to_owned();
            text.append(action.as_str());
            text.append("\"");
            push_text(attributes, text);
        },
        None => {},
    }
    match &names.on_update {
        Some(action) => {
            let mut text = "on_update = \"".to_owned();
            text.append(action.as_str());
            text.append("\"");
            push_text(attributes, text);
        },
        None => {},
    }
}

/// The item that says how the entity is related to another.
pub fn related_link_block(other_snake: &str, other_pascal: &str) -> (r: Block)
    ensures
        r@ == related_link(other_snake@, other_pascal@),
{
    let mut head = "impl Related<super::".to_owned();
    head.append(other_snake);
    head.append("::Entity> for Entity");
    let mut body = "Relation::".to_owned();
    body.append(other_pascal);
    body.append(".def()");
    Block::new(2, Some(head.as_str())).block(
        Block::new(3, Some("fn to() -> RelationDef")).line(body.as_str()),
    )
}

/// A variant of the relation enum.
fn variant(name: &str) -> (r: String)
    ensures
        r@ == name@ + ","@,
{
    let mut out = name.to_owned();
    out.append(",");
    out
}

/// Adds a relation, given by its kind, its direction and its names, to the
/// relations of a table.
pub fn add_cased_relation(state: Relations, rel: Relation, way: RefDirection, names: &CasedRef) -> (r:
    Result<Relations, AnalysisError>)
    ensures
        match r {
            Ok(s) => add_cased(state@, rel, way, names@) == Ok::<RelationsView, AnalysisError>(s@),
            Err(e) => add_cased(state@, rel, way, names@) == Err::<RelationsView, AnalysisError>(
                e,
            ),
        },
{
    let Relations { variants, links } = state;
    let mut links = links;
    match way {
        RefDirection::Itself => {
            let (from_field, to_field) = match (&names.from_field, &names.to_field) {
                (Some(f), Some(t)) => (f, t),
                _ => {
                    return Err(AnalysisError::UnsupportedCompositeReference);
                },
            };
            let mut attributes: Vec<String> = Vec::new();
            assert(attributes.deep_view() =~= Seq::empty());
            push_text(&mut attributes, "belongs_to = \"Entity\"".to_owned());
            let mut from_text = "from = \"Column::".to_owned();
            from_text.append(from_field.as_str());
            from_text.append("\"");
            push_text(&mut attributes, from_text);
            let mut to_text = "to = \"Column::".to_owned();
            to_text.append(to_field.as_str());
            to_text.append("\"");
            push_text(&mut attributes, to_text);
            add_actions(&mut attributes, names);
            push_block(&mut links, Block::new(2, Some("pub struct SelfReferencingLink")));
            push_block(
                &mut links,
                Block::new(2, Some("impl Linked for SelfReferencingLink")).line(
                    "type FromEntity = Entity;",
                ).line("type ToEntity = Entity;").line_skip(1).block(
                    Block::new(3, Some("fn link(&self) -> Vec<RelationDef>")).line(
                        "vec![Relation::SelfReferencing.def()]",
                    ),
                ),
            );
            let variants = variants.line(sea_orm_attribute(&attributes).as_str()).line(
                "SelfReferencing,",
            );
            Ok(Relations { variants, links })
        },
        RefDirection::To => {
            let (from_field, to_field) = match (&names.from_field, &names.to_field) {
                (Some(f), Some(t)) => (f, t),
                _ => {
                    return Err(AnalysisError::UnsupportedCompositeReference);
                },
            };
            match rel {
                Relation::One2One | Relation::Many2One => {},
                _ => {
                    return Err(AnalysisError::UnsupportedRelationKind);
                },
            }
            let mut attributes: Vec<String> = Vec::new();
            assert(attributes.deep_view() =~= Seq::empty());
            let mut belongs = "belongs_to = \"super::".to_owned();
            belongs.append(names.other_snake.as_str());
            belongs.append("::Entity\"");
            push_text(&mut attributes, belongs);
            let mut from_text = "from = \"Column::".to_owned();
            from_text.append(from_field.as_str());
            from_text.append("\"");
            push_text(&mut attributes, from_text);
            let mut to_text = "to = \"super::".to_owned();
            to_text.append(names.other_snake.as_str());
            to_text.append("::Column::");
            to_text.append(to_field.as_str());
            to_text.append("\"");
            push_text(&mut attributes, to_text);
            add_actions(&mut attributes, names);
            push_block(
                &mut links,
                related_link_block(names.other_snake.as_str(), names.other_pascal.as_str()),
            );
            let variants = variants.line(sea_orm_attribute(&attributes).as_str()).line(
                variant(names.other_pascal.as_str()).as_str(),
            );
            Ok(Relations { variants, links })
        },
        RefDirection::By => {
            let mut line = match rel {
                Relation::One2One => "#[sea_orm(has_one = \"super::".to_owned(),
                Relation::Many2One => "#[sea_orm(has_many = \"super::".to_owned(),
                _ => {
                    return Err(AnalysisError::UnsupportedRelationKind);
                },
            };
            line.append(names.other_snake.as_str());
            line.append("::Entity\")]");
            push_block(
                &mut links,
                related_link_block(names.other_snake.as_str(), names.other_pascal.as_str()),
            );
            let variants = variants.line(line.as_str()).line(
                variant(names.other_pascal.as_str()).as_str(),
            );
            Ok(Relations { variants, links })
        },
    }
}

/// The action of a setting, in Pascal case.
fn action_in_pascal_case(action: &Option<RelationAction>) -> (r: Option<String>)
    ensures
        r.deep_view() == cased_action(*action),
{
    match action {
        Some(a) => Some(to_pascal_case(a.to_string().as_str())),
        None => None,
    }
}

/// The names that the generated code of a relation is made of.
pub fn cased_names(block: &IndexedRefBlock, way: RefDirection) -> (r: CasedRef)
    ensures
        r@ == cased_ref(block@, way),
{
    let other = match way {
        RefDirection::By => &block.lhs.table,
        _ => &block.rhs.table,
    };
    let from_field = if block.lhs.compositions.len() > 0 {
        assert(block@.lhs.compositions[0] == block.lhs.compositions[0]@);
        Some(to_pascal_case(block.lhs.compositions[0].as_str()))
    } else {
        None
    };
    let to_field = if block.rhs.compositions.len() > 0 {
        assert(block@.rhs.compositions[0] == block.rhs.compositions[0]@);
        Some(to_pascal_case(block.rhs.compositions[0].as_str()))
    } else {
        None
    };
    let (on_delete, on_update) = match &block.settings {
        Some(s) => (action_in_pascal_case(&s.on_delete), action_in_pascal_case(&s.on_update)),
        None => (None, None),
    };
    CasedRef {
        from_field,
        to_field,
        other_pascal: to_pascal_case(other.as_str()),
        other_snake: to_snake_case(other.as_str()),
        on_delete,
        on_update,
    }
}

/// Adds the relations of one direction, in order, to the relations of a
/// table.
pub fn add_relations_of(state: Relations, blocks: &Vec<IndexedRefBlock>, way: RefDirection) -> (r:
    Result<Relations, AnalysisError>)
    ensures
        match r {
            Ok(s) => add_relations(state@, blocks.deep_view(), way, 0) == Ok::<
                RelationsView,
                AnalysisError,
            >(s@),
            Err(e) => add_relations(state@, blocks.deep_view(), way, 0) == Err::<
                RelationsView,
                AnalysisError,
            >(e),
        },
{
    let mut current = state;
    let mut i: usize = 0;
    while i < blocks.len()
        invariant
            i <= blocks.len(),
            add_relations(state@, blocks.deep_view(), way, 0) == add_relations(
                current@,
                blocks.deep_view(),
                way,
                i as int,
            ),
        decreases blocks.len() - i,
    {
        assert(blocks.deep_view()[i as int] == blocks[i as int]@);
        let names = cased_names(&blocks[i], way);
        current = match add_cased_relation(current, blocks[i].rel, way, &names) {
            Err(e) => {
                return Err(e);
            },
            Ok(next) => next,
        };
        i += 1;
    }
    Ok(current)
}

} // verus!
