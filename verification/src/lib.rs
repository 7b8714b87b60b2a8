//! Parsing of CoreSight ROM tables and component identification blocks.
//!
//! The library decodes the registers of a CoreSight component (its CIDR and
//! PIDR blocks), walks the ROM tables that list further components, and
//! identifies known ARM peripherals. Target memory is read by the caller: a
//! parse runs over a [`ReadLog`] of the answers to the reads it has asked for
//! so far and, when it needs another, returns [`Progress::NeedsRead`] with the
//! read to perform. Feeding each answer back and parsing again drives the
//! parse to its end.
mod component;
mod entry;
mod error;
mod facts;
mod laws;
mod manufacturer;
mod parse;
mod peripheral;
mod reader;

pub use component::{
    component_model, entries_model, first_of_type, preorder, preorder_entries, preorder_list,
    spec_raw_component, Component, ComponentId, ComponentIter, ComponentModel, RawComponent,
    RomTable, RomTableEntry, TableEntryModel,
};
pub use entry::RomTableEntryRaw;
pub use error::{AccessPortError, MemoryError, RomTableError};
pub use facts::{
    class_number, decoded_from_answer, law_component_kind_follows_cidr1, law_entry_keeps_raw_fields,
    law_entry_word_bits, law_first_entry_fields, law_jep106_code_bits, law_known_arm_parts,
    law_part_name_mentions_its_type, law_peripheral_of_one_type, law_raw_entries_come_from_words,
    law_type_is_the_known_parts_type, mentions, model_id, second_word, type_tag, variant_class,
};
pub use laws::{
    answered_by, answers_from, extends, law_each_round_uses_one_answer,
    law_entry_reads_step_by_word, law_finished_answers_end_the_loop,
    law_finished_parse_is_final, law_waiting_parse_used_all,
};
pub use manufacturer::{jep106_manufacturer, Jep106Code};
pub use parse::{
    component_progress, nested_entries, prepend_models, prepend_raws, spec_parse_component, spec_parse_entries,
    spec_parse_table, spec_read_entries, table_progress, unread,
};
pub use peripheral::{
    arm_part, part_for_designer, peripheral_id_from_words, ComponentModification, PartInfo, PeripheralID,
    PeripheralType,
};
pub use reader::{
    answered_words, register_address, spec_arch_id, spec_component_class, spec_read_all,
    spec_read_peripheral_id, spec_read_word, spec_read_words, words_progress,
    ComponentInformationReader, Progress, ReadLog, ReadRequest, ReadResponse,
};
