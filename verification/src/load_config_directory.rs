//! The load-configuration directory: the 32-bit and 64-bit on-disk
//! layouts, and the unified record whose pointer-width fields are all 64
//! bits wide.
use vstd::prelude::*;

use crate::error::ParseError;
use crate::reader::{get_u16, get_u32, get_u64, le_u16_at, le_u32_at, le_u64_at, span_fits};

verus! {

/// The byte length of the 32-bit layout.
pub const BYTES_OF_LOAD_CONFIG_32: usize = 164;

/// The byte length of the 64-bit layout.
pub const BYTES_OF_LOAD_CONFIG_64: usize = 264;

/// The embedded code-integrity record, identical in both layouts.
#[derive(Clone, Copy, Debug)]
pub struct LoadConfigCodeIntegrity {
    pub flags: u16,
    pub catalog: u16,
    pub catalog_offset: u32,
    pub reserved: u32,
}

/// The code-integrity record stored at `off .. off + 12`.
pub open spec fn spec_code_integrity(b: Seq<u8>, off: int) -> LoadConfigCodeIntegrity {
    LoadConfigCodeIntegrity {
        flags: le_u16_at(b, off),
        catalog: le_u16_at(b, off + 2),
        catalog_offset: le_u32_at(b, off + 4),
        reserved: le_u32_at(b, off + 8),
    }
}

impl LoadConfigCodeIntegrity {
    /// The catalog table index.
    pub fn catalog(&self) -> (r: u16)
        ensures
            r == self.catalog,
    {
        self.catalog
    }

    /// The offset into the catalog table.
    pub fn catalog_offset(&self) -> (r: u32)
        ensures
            r == self.catalog_offset,
    {
        self.catalog_offset
    }

    /// The code-integrity flag word.
    pub fn flags(&self) -> (r: u16)
        ensures
            r == self.flags,
    {
        self.flags
    }
}

/// The raw 32-bit on-disk layout.
#[derive(Clone, Copy, Debug)]
pub struct LoadConfigDirectory32 {
    pub size: u32,
    pub time_date_stamp: u32,
    pub major_version: u16,
    pub minor_version: u16,
    pub global_flags_clear: u32,
    pub global_flags_set: u32,
    pub critical_section_default_timeout: u32,
    pub de_commit_free_block_threshold: u32,
    pub de_commit_total_free_threshold: u32,
    pub lock_prefix_table: u32,
    pub maximum_allocation_size: u32,
    pub virtual_memory_threshold: u32,
    pub process_heap_flags: u32,
    pub process_affinity_mask: u32,
    pub csd_version: u16,
    pub dependent_load_flags: u16,
    pub edit_list: u32,
    pub security_cookie: u32,
    pub se_handler_table: u32,
    pub se_handler_count: u32,
    pub guard_cf_check_function_pointer: u32,
    pub guard_cf_dispatch_function_pointer: u32,
    pub guard_cf_function_table: u32,
    pub guard_cf_function_count: u32,
    pub guard_flags: u32,
    pub code_integrity: LoadConfigCodeIntegrity,
    pub guard_address_taken_iat_entry_table: u32,
    pub guard_address_taken_iat_entry_count: u32,
    pub guard_long_jump_target_table: u32,
    pub guard_long_jump_target_count: u32,
    pub dynamic_value_reloc_table: u32,
    pub chpe_metadata_pointer: u32,
    pub guard_rf_failure_routine: u32,
    pub guard_rf_failure_routine_function_pointer: u32,
    pub dynamic_value_reloc_table_offset: u32,
    pub dynamic_value_reloc_table_section: u16,
    pub reserved2: u16,
    pub guard_rf_verify_stack_pointer_function_pointer: u32,
    pub hot_patch_table_offset: u32,
    pub reserved3: u32,
    pub enclave_configuration_pointer: u32,
    pub volatile_metadata_pointer: u32,
}

/// The 32-bit layout stored at `off .. off + 164`.
pub open spec fn spec_load_config_directory_32(b: Seq<u8>, off: int) -> LoadConfigDirectory32 {
    LoadConfigDirectory32 {
        size: le_u32_at(b, off),
        time_date_stamp: le_u32_at(b, off + 4),
        major_version: le_u16_at(b, off + 8),
        minor_version: le_u16_at(b, off + 10),
        global_flags_clear: le_u32_at(b, off + 12),
        global_flags_set: le_u32_at(b, off + 16),
        critical_section_default_timeout: le_u32_at(b, off + 20),
        de_commit_free_block_threshold: le_u32_at(b, off + 24),
        de_commit_total_free_threshold: le_u32_at(b, off + 28),
        lock_prefix_table: le_u32_at(b, off + 32),
        maximum_allocation_size: le_u32_at(b, off + 36),
        virtual_memory_threshold: le_u32_at(b, off + 40),
        process_heap_flags: le_u32_at(b, off + 44),
        process_affinity_mask: le_u32_at(b, off + 48),
        csd_version: le_u16_at(b, off + 52),
        dependent_load_flags: le_u16_at(b, off + 54),
        edit_list: le_u32_at(b, off + 56),
        security_cookie: le_u32_at(b, off + 60),
        se_handler_table: le_u32_at(b, off + 64),
        se_handler_count: le_u32_at(b, off + 68),
        guard_cf_check_function_pointer: le_u32_at(b, off + 72),
        guard_cf_dispatch_function_pointer: le_u32_at(b, off + 76),
        guard_cf_function_table: le_u32_at(b, off + 80),
        guard_cf_function_count: le_u32_at(b, off + 84),
        guard_flags: le_u32_at(b, off + 88),
        code_integrity: spec_code_integrity(b, off + 92),
        guard_address_taken_iat_entry_table: le_u32_at(b, off + 104),
        guard_address_taken_iat_entry_count: le_u32_at(b, off + 108),
        guard_long_jump_target_table: le_u32_at(b, off + 112),
        guard_long_jump_target_count: le_u32_at(b, off + 116),
        dynamic_value_reloc_table: le_u32_at(b, off + 120),
        chpe_metadata_pointer: le_u32_at(b, off + 124),
        guard_rf_failure_routine: le_u32_at(b, off + 128),
        guard_rf_failure_routine_function_pointer: le_u32_at(b, off + 132),
        dynamic_value_reloc_table_offset: le_u32_at(b, off + 136),
        dynamic_value_reloc_table_section: le_u16_at(b, off + 140),
        reserved2: le_u16_at(b, off + 142),
        guard_rf_verify_stack_pointer_function_pointer: le_u32_at(b, off + 144),
        hot_patch_table_offset: le_u32_at(b, off + 148),
        reserved3: le_u32_at(b, off + 152),
        enclave_configuration_pointer: le_u32_at(b, off + 156),
        volatile_metadata_pointer: le_u32_at(b, off + 160),
    }
}

/// The raw 64-bit on-disk layout.
#[derive(Clone, Copy, Debug)]
pub struct LoadConfigDirectory64 {
    pub size: u32,
    pub time_date_stamp: u32,
    pub major_version: u16,
    pub minor_version: u16,
    pub global_flags_clear: u32,
    pub global_flags_set: u32,
    pub critical_section_default_timeout: u32,
    pub de_commit_free_block_threshold: u64,
    pub de_commit_total_free_threshold: u64,
    pub lock_prefix_table: u64,
    pub maximum_allocation_size: u64,
    pub virtual_memory_threshold: u64,
    pub process_heap_flags: u32,
    pub process_affinity_mask: u64,
    pub csd_version: u16,
    pub dependent_load_flags: u16,
    pub edit_list: u64,
    pub security_cookie: u64,
    pub se_handler_table: u64,
    pub se_handler_count: u64,
    pub guard_cf_check_function_pointer: u64,
    pub guard_cf_dispatch_function_pointer: u64,
    pub guard_cf_function_table: u64,
    pub guard_cf_function_count: u64,
    pub guard_flags: u32,
    pub code_integrity: LoadConfigCodeIntegrity,
    pub guard_address_taken_iat_entry_table: u64,
    pub guard_address_taken_iat_entry_count: u64,
    pub guard_long_jump_target_table: u64,
    pub guard_long_jump_target_count: u64,
    pub dynamic_value_reloc_table: u64,
    pub chpe_metadata_pointer: u64,
    pub guard_rf_failure_routine: u64,
    pub guard_rf_failure_routine_function_pointer: u64,
    pub dynamic_value_reloc_table_offset: u32,
    pub dynamic_value_reloc_table_section: u16,
    pub reserved2: u16,
    pub guard_rf_verify_stack_pointer_function_pointer: u64,
    pub hot_patch_table_offset: u32,
    pub reserved3: u32,
    pub enclave_configuration_pointer: u64,
    pub volatile_metadata_pointer: u64,
}

/// The 64-bit layout stored at `off .. off + 264`.
pub open spec fn spec_load_config_directory_64(b: Seq<u8>, off: int) -> LoadConfigDirectory64 {
    LoadConfigDirectory64 {
        size: le_u32_at(b, off),
        time_date_stamp: le_u32_at(b, off + 4),
        major_version: le_u16_at(b, off + 8),
        minor_version: le_u16_at(b, off + 10),
        global_flags_clear: le_u32_at(b, off + 12),
        global_flags_set: le_u32_at(b, off + 16),
        critical_section_default_timeout: le_u32_at(b, off + 20),
        de_commit_free_block_threshold: le_u64_at(b, off + 24),
        de_commit_total_free_threshold: le_u64_at(b, off + 32),
        lock_prefix_table: le_u64_at(b, off + 40),
        maximum_allocation_size: le_u64_at(b, off + 48),
        virtual_memory_threshold: le_u64_at(b, off + 56),
        process_heap_flags: le_u32_at(b, off + 72),
        process_affinity_mask: le_u64_at(b, off + 64),
        csd_version: le_u16_at(b, off + 76),
        dependent_load_flags: le_u16_at(b, off + 78),
        edit_list: le_u64_at(b, off + 80),
        security_cookie: le_u64_at(b, off + 88),
        se_handler_table: le_u64_at(b, off + 96),
        se_handler_count: le_u64_at(b, off + 104),
        guard_cf_check_function_pointer: le_u64_at(b, off + 112),
        guard_cf_dispatch_function_pointer: le_u64_at(b, off + 120),
        guard_cf_function_table: le_u64_at(b, off + 128),
        guard_cf_function_count: le_u64_at(b, off + 136),
        guard_flags: le_u32_at(b, off + 144),
        code_integrity: spec_code_integrity(b, off + 148),
        guard_address_taken_iat_entry_table: le_u64_at(b, off + 160),
        guard_address_taken_iat_entry_count: le_u64_at(b, off + 168),
        guard_long_jump_target_table: le_u64_at(b, off + 176),
        guard_long_jump_target_count: le_u64_at(b, off + 184),
        dynamic_value_reloc_table: le_u64_at(b, off + 192),
        chpe_metadata_pointer: le_u64_at(b, off + 200),
        guard_rf_failure_routine: le_u64_at(b, off + 208),
        guard_rf_failure_routine_function_pointer: le_u64_at(b, off + 216),
        dynamic_value_reloc_table_offset: le_u32_at(b, off + 224),
        dynamic_value_reloc_table_section: le_u16_at(b, off + 228),
        reserved2: le_u16_at(b, off + 230),
        guard_rf_verify_stack_pointer_function_pointer: le_u64_at(b, off + 232),
        hot_patch_table_offset: le_u32_at(b, off + 240),
        reserved3: le_u32_at(b, off + 244),
        enclave_configuration_pointer: le_u64_at(b, off + 248),
        volatile_metadata_pointer: le_u64_at(b, off + 256),
    }
}

/// The unified load-configuration record.
#[derive(Clone, Copy, Debug)]
pub struct LoadConfigDirectory {
    pub size: u32,
    pub time_date_stamp: u32,
    pub major_version: u16,
    pub minor_version: u16,
    pub global_flags_clear: u32,
    pub global_flags_set: u32,
    pub critical_section_default_timeout: u32,
    pub de_commit_free_block_threshold: u64,
    pub de_commit_total_free_threshold: u64,
    pub lock_prefix_table: u64,
    pub maximum_allocation_size: u64,
    pub virtual_memory_threshold: u64,
    pub process_heap_flags: u32,
    pub process_affinity_mask: u64,
    pub csd_version: u16,
    pub dependent_load_flags: u16,
    pub edit_list: u64,
    pub security_cookie: u64,
    pub se_handler_table: u64,
    pub se_handler_count: u64,
    pub guard_cf_check_function_pointer: u64,
    pub guard_cf_dispatch_function_pointer: u64,
    pub guard_cf_function_table: u64,
    pub guard_cf_function_count: u64,
    pub guard_flags: u32,
    pub code_integrity: LoadConfigCodeIntegrity,
    pub guard_address_taken_iat_entry_table: u64,
    pub guard_address_taken_iat_entry_count: u64,
    pub guard_long_jump_target_table: u64,
    pub guard_long_jump_target_count: u64,
    pub dynamic_value_reloc_table: u64,
    pub chpe_metadata_pointer: u64,
    pub guard_rf_failure_routine: u64,
    pub guard_rf_failure_routine_function_pointer: u64,
    pub dynamic_value_reloc_table_offset: u32,
    pub dynamic_value_reloc_table_section: u16,
    pub reserved2: u16,
    pub guard_rf_verify_stack_pointer_function_pointer: u64,
    pub hot_patch_table_offset: u32,
    pub reserved3: u32,
    pub enclave_configuration_pointer: u64,
    pub volatile_metadata_pointer: u64,
}

/// The unified record obtained from the 32-bit layout, with the
/// narrower fields widened to 64 bits.
pub open spec fn spec_unified_from_32(cfg: LoadConfigDirectory32) -> LoadConfigDirectory {
    LoadConfigDirectory {
        size: cfg.size,
        time_date_stamp: cfg.time_date_stamp,
        major_version: cfg.major_version,
        minor_version: cfg.minor_version,
        global_flags_clear: cfg.global_flags_clear,
        global_flags_set: cfg.global_flags_set,
        critical_section_default_timeout: cfg.critical_section_default_timeout,
        de_commit_free_block_threshold: cfg.de_commit_free_block_threshold as u64,
        de_commit_total_free_threshold: cfg.de_commit_total_free_threshold as u64,
        lock_prefix_table: cfg.lock_prefix_table as u64,
        maximum_allocation_size: cfg.maximum_allocation_size as u64,
        virtual_memory_threshold: cfg.virtual_memory_threshold as u64,
        process_heap_flags: cfg.process_heap_flags,
        process_affinity_mask: cfg.process_affinity_mask as u64,
        csd_version: cfg.csd_version,
        dependent_load_flags: cfg.dependent_load_flags,
        edit_list: cfg.edit_list as u64,
        security_cookie: cfg.security_cookie as u64,
        se_handler_table: cfg.se_handler_table as u64,
        se_handler_count: cfg.se_handler_count as u64,
        guard_cf_check_function_pointer: cfg.guard_cf_check_function_pointer as u64,
        guard_cf_dispatch_function_pointer: cfg.guard_cf_dispatch_function_pointer as u64,
        guard_cf_function_table: cfg.guard_cf_function_table as u64,
        guard_cf_function_count: cfg.guard_cf_function_count as u64,
        guard_flags: cfg.guard_flags,
        code_integrity: cfg.code_integrity,
        guard_address_taken_iat_entry_table: cfg.guard_address_taken_iat_entry_table as u64,
        guard_address_taken_iat_entry_count: cfg.guard_address_taken_iat_entry_count as u64,
        guard_long_jump_target_table: cfg.guard_long_jump_target_table as u64,
        guard_long_jump_target_count: cfg.guard_long_jump_target_count as u64,
        dynamic_value_reloc_table: cfg.dynamic_value_reloc_table as u64,
        chpe_metadata_pointer: cfg.chpe_metadata_pointer as u64,
        guard_rf_failure_routine: cfg.guard_rf_failure_routine as u64,
        guard_rf_failure_routine_function_pointer: cfg.guard_rf_failure_routine_function_pointer as u64,
        dynamic_value_reloc_table_offset: cfg.dynamic_value_reloc_table_offset,
        dynamic_value_reloc_table_section: cfg.dynamic_value_reloc_table_section,
        reserved2: cfg.reserved2,
        guard_rf_verify_stack_pointer_function_pointer: cfg.guard_rf_verify_stack_pointer_function_pointer as u64,
        hot_patch_table_offset: cfg.hot_patch_table_offset,
        reserved3: cfg.reserved3,
        enclave_configuration_pointer: cfg.enclave_configuration_pointer as u64,
        volatile_metadata_pointer: cfg.volatile_metadata_pointer as u64,
    }
}

/// The unified record obtained from the 64-bit layout.
pub open spec fn spec_unified_from_64(cfg: LoadConfigDirectory64) -> LoadConfigDirectory {
    LoadConfigDirectory {
        size: cfg.size,
        time_date_stamp: cfg.time_date_stamp,
        major_version: cfg.major_version,
        minor_version: cfg.minor_version,
        global_flags_clear: cfg.global_flags_clear,
        global_flags_set: cfg.global_flags_set,
        critical_section_default_timeout: cfg.critical_section_default_timeout,
        de_commit_free_block_threshold: cfg.de_commit_free_block_threshold,
        de_commit_total_free_threshold: cfg.de_commit_total_free_threshold,
        lock_prefix_table: cfg.lock_prefix_table,
        maximum_allocation_size: cfg.maximum_allocation_size,
        virtual_memory_threshold: cfg.virtual_memory_threshold,
        process_heap_flags: cfg.process_heap_flags,
        process_affinity_mask: cfg.process_affinity_mask,
        csd_version: cfg.csd_version,
        dependent_load_flags: cfg.dependent_load_flags,
        edit_list: cfg.edit_list,
        security_cookie: cfg.security_cookie,
        se_handler_table: cfg.se_handler_table,
        se_handler_count: cfg.se_handler_count,
        guard_cf_check_function_pointer: cfg.guard_cf_check_function_pointer,
        guard_cf_dispatch_function_pointer: cfg.guard_cf_dispatch_function_pointer,
        guard_cf_function_table: cfg.guard_cf_function_table,
        guard_cf_function_count: cfg.guard_cf_function_count,
        guard_flags: cfg.guard_flags,
        code_integrity: cfg.code_integrity,
        guard_address_taken_iat_entry_table: cfg.guard_address_taken_iat_entry_table,
        guard_address_taken_iat_entry_count: cfg.guard_address_taken_iat_entry_count,
        guard_long_jump_target_table: cfg.guard_long_jump_target_table,
        guard_long_jump_target_count: cfg.guard_long_jump_target_count,
        dynamic_value_reloc_table: cfg.dynamic_value_reloc_table,
        chpe_metadata_pointer: cfg.chpe_metadata_pointer,
        guard_rf_failure_routine: cfg.guard_rf_failure_routine,
        guard_rf_failure_routine_function_pointer: cfg.guard_rf_failure_routine_function_pointer,
        dynamic_value_reloc_table_offset: cfg.dynamic_value_reloc_table_offset,
        dynamic_value_reloc_table_section: cfg.dynamic_value_reloc_table_section,
        reserved2: cfg.reserved2,
        guard_rf_verify_stack_pointer_function_pointer: cfg.guard_rf_verify_stack_pointer_function_pointer,
        hot_patch_table_offset: cfg.hot_patch_table_offset,
        reserved3: cfg.reserved3,
        enclave_configuration_pointer: cfg.enclave_configuration_pointer,
        volatile_metadata_pointer: cfg.volatile_metadata_pointer,
    }
}

impl LoadConfigDirectory {
    /// Decodes the load configuration at `offset`, using the 64-bit layout
    /// when `x64` and the 32-bit layout otherwise, and normalizes it into
    /// the unified record.
    pub fn parse(buffer: &[u8], offset: usize, x64: bool) -> (r: Result<
        LoadConfigDirectory,
        ParseError,
    >)
        ensures
            ({
                let sz = if x64 { 264int } else { 164int };
                &&& offset + sz > buffer@.len() ==> r == Err::<LoadConfigDirectory, ParseError>(
                    ParseError::DecodeFailure { offset: offset as u64 },
                )
                &&& offset + sz <= buffer@.len() && x64 ==> r == Ok::<
                    LoadConfigDirectory,
                    ParseError,
>(spec_unified_from_64(spec_load_config_directory_64(buffer@, offset as int)))
                &&& offset + sz <= buffer@.len() && !x64 ==> r == Ok::<
                    LoadConfigDirectory,
                    ParseError,
>(spec_unified_from_32(spec_load_config_directory_32(buffer@, offset as int)))
            }),
    {
        if x64 {
            if !span_fits(buffer, offset, BYTES_OF_LOAD_CONFIG_64) {
                return Err(ParseError::DecodeFailure { offset: offset as u64 });
            }
            let cfg = LoadConfigDirectory64 {
                size: get_u32(buffer, offset),
                time_date_stamp: get_u32(buffer, offset + 4),
                major_version: get_u16(buffer, offset + 8),
                minor_version: get_u16(buffer, offset + 10),
                global_flags_clear: get_u32(buffer, offset + 12),
                global_flags_set: get_u32(buffer, offset + 16),
                critical_section_default_timeout: get_u32(buffer, offset + 20),
                de_commit_free_block_threshold: get_u64(buffer, offset + 24),
                de_commit_total_free_threshold: get_u64(buffer, offset + 32),
                lock_prefix_table: get_u64(buffer, offset + 40),
                maximum_allocation_size: get_u64(buffer, offset + 48),
                virtual_memory_threshold: get_u64(buffer, offset + 56),
                process_heap_flags: get_u32(buffer, offset + 72),
                process_affinity_mask: get_u64(buffer, offset + 64),
                csd_version: get_u16(buffer, offset + 76),
                dependent_load_flags: get_u16(buffer, offset + 78),
                edit_list: get_u64(buffer, offset + 80),
                security_cookie: get_u64(buffer, offset + 88),
                se_handler_table: get_u64(buffer, offset + 96),
                se_handler_count: get_u64(buffer, offset + 104),
                guard_cf_check_function_pointer: get_u64(buffer, offset + 112),
                guard_cf_dispatch_function_pointer: get_u64(buffer, offset + 120),
                guard_cf_function_table: get_u64(buffer, offset + 128),
                guard_cf_function_count: get_u64(buffer, offset + 136),
                guard_flags: get_u32(buffer, offset + 144),
                code_integrity: LoadConfigCodeIntegrity {
                    flags: get_u16(buffer, offset + 148),
                    catalog: get_u16(buffer, offset + 150),
                    catalog_offset: get_u32(buffer, offset + 152),
                    reserved: get_u32(buffer, offset + 156),
                },
                guard_address_taken_iat_entry_table: get_u64(buffer, offset + 160),
                guard_address_taken_iat_entry_count: get_u64(buffer, offset + 168),
                guard_long_jump_target_table: get_u64(buffer, offset + 176),
                guard_long_jump_target_count: get_u64(buffer, offset + 184),
                dynamic_value_reloc_table: get_u64(buffer, offset + 192),
                chpe_metadata_pointer: get_u64(buffer, offset + 200),
                guard_rf_failure_routine: get_u64(buffer, offset + 208),
                guard_rf_failure_routine_function_pointer: get_u64(buffer, offset + 216),
                dynamic_value_reloc_table_offset: get_u32(buffer, offset + 224),
                dynamic_value_reloc_table_section: get_u16(buffer, offset + 228),
                reserved2: get_u16(buffer, offset + 230),
                guard_rf_verify_stack_pointer_function_pointer: get_u64(buffer, offset + 232),
                hot_patch_table_offset: get_u32(buffer, offset + 240),
                reserved3: get_u32(buffer, offset + 244),
                enclave_configuration_pointer: get_u64(buffer, offset + 248),
                volatile_metadata_pointer: get_u64(buffer, offset + 256),
            };
            Ok(Self::from_load_config_directory_64(cfg))
        } else {
            if !span_fits(buffer, offset, BYTES_OF_LOAD_CONFIG_32) {
                return Err(ParseError::DecodeFailure { offset: offset as u64 });
            }
            let cfg = LoadConfigDirectory32 {
                size: get_u32(buffer, offset),
                time_date_stamp: get_u32(buffer, offset + 4),
                major_version: get_u16(buffer, offset + 8),
                minor_version: get_u16(buffer, offset + 10),
                global_flags_clear: get_u32(buffer, offset + 12),
                global_flags_set: get_u32(buffer, offset + 16),
                critical_section_default_timeout: get_u32(buffer, offset + 20),
                de_commit_free_block_threshold: get_u32(buffer, offset + 24),
                de_commit_total_free_threshold: get_u32(buffer, offset + 28),
                lock_prefix_table: get_u32(buffer, offset + 32),
                maximum_allocation_size: get_u32(buffer, offset + 36),
                virtual_memory_threshold: get_u32(buffer, offset + 40),
                process_heap_flags: get_u32(buffer, offset + 44),
                process_affinity_mask: get_u32(buffer, offset + 48),
                csd_version: get_u16(buffer, offset + 52),
                dependent_load_flags: get_u16(buffer, offset + 54),
                edit_list: get_u32(buffer, offset + 56),
                security_cookie: get_u32(buffer, offset + 60),
                se_handler_table: get_u32(buffer, offset + 64),
                se_handler_count: get_u32(buffer, offset + 68),
                guard_cf_check_function_pointer: get_u32(buffer, offset + 72),
                guard_cf_dispatch_function_pointer: get_u32(buffer, offset + 76),
                guard_cf_function_table: get_u32(buffer, offset + 80),
                guard_cf_function_count: get_u32(buffer, offset + 84),
                guard_flags: get_u32(buffer, offset + 88),
                code_integrity: LoadConfigCodeIntegrity {
                    flags: get_u16(buffer, offset + 92),
                    catalog: get_u16(buffer, offset + 94),
                    catalog_offset: get_u32(buffer, offset + 96),
                    reserved: get_u32(buffer, offset + 100),
                },
                guard_address_taken_iat_entry_table: get_u32(buffer, offset + 104),
                guard_address_taken_iat_entry_count: get_u32(buffer, offset + 108),
                guard_long_jump_target_table: get_u32(buffer, offset + 112),
                guard_long_jump_target_count: get_u32(buffer, offset + 116),
                dynamic_value_reloc_table: get_u32(buffer, offset + 120),
                chpe_metadata_pointer: get_u32(buffer, offset + 124),
                guard_rf_failure_routine: get_u32(buffer, offset + 128),
                guard_rf_failure_routine_function_pointer: get_u32(buffer, offset + 132),
                dynamic_value_reloc_table_offset: get_u32(buffer, offset + 136),
                dynamic_value_reloc_table_section: get_u16(buffer, offset + 140),
                reserved2: get_u16(buffer, offset + 142),
                guard_rf_verify_stack_pointer_function_pointer: get_u32(buffer, offset + 144),
                hot_patch_table_offset: get_u32(buffer, offset + 148),
                reserved3: get_u32(buffer, offset + 152),
                enclave_configuration_pointer: get_u32(buffer, offset + 156),
                volatile_metadata_pointer: get_u32(buffer, offset + 160),
            };
            Ok(Self::from_load_config_directory_32(cfg))
        }
    }

    /// Normalizes the raw 32-bit layout into the unified record.
    fn from_load_config_directory_32(cfg: LoadConfigDirectory32) -> (r: LoadConfigDirectory)
        ensures
            r == spec_unified_from_32(cfg),
    {
        LoadConfigDirectory {
            size: cfg.size,
            time_date_stamp: cfg.time_date_stamp,
            major_version: cfg.major_version,
            minor_version: cfg.minor_version,
            global_flags_clear: cfg.global_flags_clear,
            global_flags_set: cfg.global_flags_set,
            critical_section_default_timeout: cfg.critical_section_default_timeout,
            de_commit_free_block_threshold: cfg.de_commit_free_block_threshold as u64,
            de_commit_total_free_threshold: cfg.de_commit_total_free_threshold as u64,
            lock_prefix_table: cfg.lock_prefix_table as u64,
            maximum_allocation_size: cfg.maximum_allocation_size as u64,
            virtual_memory_threshold: cfg.virtual_memory_threshold as u64,
            process_heap_flags: cfg.process_heap_flags,
            process_affinity_mask: cfg.process_affinity_mask as u64,
            csd_version: cfg.csd_version,
            dependent_load_flags: cfg.dependent_load_flags,
            edit_list: cfg.edit_list as u64,
            security_cookie: cfg.security_cookie as u64,
            se_handler_table: cfg.se_handler_table as u64,
            se_handler_count: cfg.se_handler_count as u64,
            guard_cf_check_function_pointer: cfg.guard_cf_check_function_pointer as u64,
            guard_cf_dispatch_function_pointer: cfg.guard_cf_dispatch_function_pointer as u64,
            guard_cf_function_table: cfg.guard_cf_function_table as u64,
            guard_cf_function_count: cfg.guard_cf_function_count as u64,
            guard_flags: cfg.guard_flags,
            code_integrity: cfg.code_integrity,
            guard_address_taken_iat_entry_table: cfg.guard_address_taken_iat_entry_table as u64,
            guard_address_taken_iat_entry_count: cfg.guard_address_taken_iat_entry_count as u64,
            guard_long_jump_target_table: cfg.guard_long_jump_target_table as u64,
            guard_long_jump_target_count: cfg.guard_long_jump_target_count as u64,
            dynamic_value_reloc_table: cfg.dynamic_value_reloc_table as u64,
            chpe_metadata_pointer: cfg.chpe_metadata_pointer as u64,
            guard_rf_failure_routine: cfg.guard_rf_failure_routine as u64,
            guard_rf_failure_routine_function_pointer: cfg.guard_rf_failure_routine_function_pointer as u64,
            dynamic_value_reloc_table_offset: cfg.dynamic_value_reloc_table_offset,
            dynamic_value_reloc_table_section: cfg.dynamic_value_reloc_table_section,
            reserved2: cfg.reserved2,
            guard_rf_verify_stack_pointer_function_pointer: cfg.guard_rf_verify_stack_pointer_function_pointer as u64,
            hot_patch_table_offset: cfg.hot_patch_table_offset,
            reserved3: cfg.reserved3,
            enclave_configuration_pointer: cfg.enclave_configuration_pointer as u64,
            volatile_metadata_pointer: cfg.volatile_metadata_pointer as u64,
        }
    }

    /// Normalizes the raw 64-bit layout into the unified record.
    fn from_load_config_directory_64(cfg: LoadConfigDirectory64) -> (r: LoadConfigDirectory)
        ensures
            r == spec_unified_from_64(cfg),
    {
        LoadConfigDirectory {
            size: cfg.size,
            time_date_stamp: cfg.time_date_stamp,
            major_version: cfg.major_version,
            minor_version: cfg.minor_version,
            global_flags_clear: cfg.global_flags_clear,
            global_flags_set: cfg.global_flags_set,
            critical_section_default_timeout: cfg.critical_section_default_timeout,
            de_commit_free_block_threshold: cfg.de_commit_free_block_threshold,
            de_commit_total_free_threshold: cfg.de_commit_total_free_threshold,
            lock_prefix_table: cfg.lock_prefix_table,
            maximum_allocation_size: cfg.maximum_allocation_size,
            virtual_memory_threshold: cfg.virtual_memory_threshold,
            process_heap_flags: cfg.process_heap_flags,
            process_affinity_mask: cfg.process_affinity_mask,
            csd_version: cfg.csd_version,
            dependent_load_flags: cfg.dependent_load_flags,
            edit_list: cfg.edit_list,
            security_cookie: cfg.security_cookie,
            se_handler_table: cfg.se_handler_table,
            se_handler_count: cfg.se_handler_count,
            guard_cf_check_function_pointer: cfg.guard_cf_check_function_pointer,
            guard_cf_dispatch_function_pointer: cfg.guard_cf_dispatch_function_pointer,
            guard_cf_function_table: cfg.guard_cf_function_table,
            guard_cf_function_count: cfg.guard_cf_function_count,
            guard_flags: cfg.guard_flags,
            code_integrity: cfg.code_integrity,
            guard_address_taken_iat_entry_table: cfg.guard_address_taken_iat_entry_table,
            guard_address_taken_iat_entry_count: cfg.guard_address_taken_iat_entry_count,
            guard_long_jump_target_table: cfg.guard_long_jump_target_table,
            guard_long_jump_target_count: cfg.guard_long_jump_target_count,
            dynamic_value_reloc_table: cfg.dynamic_value_reloc_table,
            chpe_metadata_pointer: cfg.chpe_metadata_pointer,
            guard_rf_failure_routine: cfg.guard_rf_failure_routine,
            guard_rf_failure_routine_function_pointer: cfg.guard_rf_failure_routine_function_pointer,
            dynamic_value_reloc_table_offset: cfg.dynamic_value_reloc_table_offset,
            dynamic_value_reloc_table_section: cfg.dynamic_value_reloc_table_section,
            reserved2: cfg.reserved2,
            guard_rf_verify_stack_pointer_function_pointer: cfg.guard_rf_verify_stack_pointer_function_pointer,
            hot_patch_table_offset: cfg.hot_patch_table_offset,
            reserved3: cfg.reserved3,
            enclave_configuration_pointer: cfg.enclave_configuration_pointer,
            volatile_metadata_pointer: cfg.volatile_metadata_pointer,
        }
    }

    /// The `chpe_metadata_pointer` field.
    pub fn chpe_metadata_pointer(&self) -> (r: u64)
        ensures
            r == self.chpe_metadata_pointer,
    {
        self.chpe_metadata_pointer
    }

    /// The `critical_section_default_timeout` field.
    pub fn critical_section_default_timeout(&self) -> (r: u32)
        ensures
            r == self.critical_section_default_timeout,
    {
        self.critical_section_default_timeout
    }

    /// The `csd_version` field.
    pub fn csd_version(&self) -> (r: u16)
        ensures
            r == self.csd_version,
    {
        self.csd_version
    }

    /// The `de_commit_free_block_threshold` field.
    pub fn de_commit_free_block_threshold(&self) -> (r: u64)
        ensures
            r == self.de_commit_free_block_threshold,
    {
        self.de_commit_free_block_threshold
    }

    /// The `de_commit_total_free_threshold` field.
    pub fn de_commit_total_free_threshold(&self) -> (r: u64)
        ensures
            r == self.de_commit_total_free_threshold,
    {
        self.de_commit_total_free_threshold
    }

    /// The `dependent_load_flags` field.
    pub fn dependent_load_flags(&self) -> (r: u16)
        ensures
            r == self.dependent_load_flags,
    {
        self.dependent_load_flags
    }

    /// The `dynamic_value_reloc_table` field.
    pub fn dynamic_value_reloc_table(&self) -> (r: u64)
        ensures
            r == self.dynamic_value_reloc_table,
    {
        self.dynamic_value_reloc_table
    }

    /// The `dynamic_value_reloc_table_offset` field.
    pub fn dynamic_value_reloc_table_offset(&self) -> (r: u32)
        ensures
            r == self.dynamic_value_reloc_table_offset,
    {
        self.dynamic_value_reloc_table_offset
    }

    /// The `dynamic_value_reloc_table_section` field.
    pub fn dynamic_value_reloc_table_section(&self) -> (r: u16)
        ensures
            r == self.dynamic_value_reloc_table_section,
    {
        self.dynamic_value_reloc_table_section
    }

    /// The `edit_list` field.
    pub fn edit_list(&self) -> (r: u64)
        ensures
            r == self.edit_list,
    {
        self.edit_list
    }

    /// The `enclave_configuration_pointer` field.
    pub fn enclave_configuration_pointer(&self) -> (r: u64)
        ensures
            r == self.enclave_configuration_pointer,
    {
        self.enclave_configuration_pointer
    }

    /// The `global_flags_clear` field.
    pub fn global_flags_clear(&self) -> (r: u32)
        ensures
            r == self.global_flags_clear,
    {
        self.global_flags_clear
    }

    /// The `global_flags_set` field.
    pub fn global_flags_set(&self) -> (r: u32)
        ensures
            r == self.global_flags_set,
    {
        self.global_flags_set
    }

    /// The `guard_address_taken_iat_entry_count` field.
    pub fn guard_address_taken_iat_entry_count(&self) -> (r: u64)
        ensures
            r == self.guard_address_taken_iat_entry_count,
    {
        self.guard_address_taken_iat_entry_count
    }

    /// The `guard_address_taken_iat_entry_table` field.
    pub fn guard_address_taken_iat_entry_table(&self) -> (r: u64)
        ensures
            r == self.guard_address_taken_iat_entry_table,
    {
        self.guard_address_taken_iat_entry_table
    }

    /// The `guard_cf_check_function_pointer` field.
    pub fn guard_cf_check_function_pointer(&self) -> (r: u64)
        ensures
            r == self.guard_cf_check_function_pointer,
    {
        self.guard_cf_check_function_pointer
    }

    /// The `guard_cf_dispatch_function_pointer` field.
    pub fn guard_cf_dispatch_function_pointer(&self) -> (r: u64)
        ensures
            r == self.guard_cf_dispatch_function_pointer,
    {
        self.guard_cf_dispatch_function_pointer
    }

    /// The `guard_cf_function_count` field.
    pub fn guard_cf_function_count(&self) -> (r: u64)
        ensures
            r == self.guard_cf_function_count,
    {
        self.guard_cf_function_count
    }

    /// The `guard_cf_function_table` field.
    pub fn guard_cf_function_table(&self) -> (r: u64)
        ensures
            r == self.guard_cf_function_table,
    {
        self.guard_cf_function_table
    }

    /// The `guard_flags` field.
    pub fn guard_flags(&self) -> (r: u32)
        ensures
            r == self.guard_flags,
    {
        self.guard_flags
    }

    /// The `guard_long_jump_target_count` field.
    pub fn guard_long_jump_target_count(&self) -> (r: u64)
        ensures
            r == self.guard_long_jump_target_count,
    {
        self.guard_long_jump_target_count
    }

    /// The `guard_long_jump_target_table` field.
    pub fn guard_long_jump_target_table(&self) -> (r: u64)
        ensures
            r == self.guard_long_jump_target_table,
    {
        self.guard_long_jump_target_table
    }

    /// The `guard_rf_failure_routine` field.
    pub fn guard_rf_failure_routine(&self) -> (r: u64)
        ensures
            r == self.guard_rf_failure_routine,
    {
        self.guard_rf_failure_routine
    }

    /// The `guard_rf_failure_routine_function_pointer` field.
    pub fn guard_rf_failure_routine_function_pointer(&self) -> (r: u64)
        ensures
            r == self.guard_rf_failure_routine_function_pointer,
    {
        self.guard_rf_failure_routine_function_pointer
    }

    /// The `guard_rf_verify_stack_pointer_function_pointer` field.
    pub fn guard_rf_verify_stack_pointer_function_pointer(&self) -> (r: u64)
        ensures
            r == self.guard_rf_verify_stack_pointer_function_pointer,
    {
        self.guard_rf_verify_stack_pointer_function_pointer
    }

    /// The `hot_patch_table_offset` field.
    pub fn hot_patch_table_offset(&self) -> (r: u32)
        ensures
            r == self.hot_patch_table_offset,
    {
        self.hot_patch_table_offset
    }

    /// The `lock_prefix_table` field.
    pub fn lock_prefix_table(&self) -> (r: u64)
        ensures
            r == self.lock_prefix_table,
    {
        self.lock_prefix_table
    }

    /// The `major_version` field.
    pub fn major_version(&self) -> (r: u16)
        ensures
            r == self.major_version,
    {
        self.major_version
    }

    /// The `maximum_allocation_size` field.
    pub fn maximum_allocation_size(&self) -> (r: u64)
        ensures
            r == self.maximum_allocation_size,
    {
        self.maximum_allocation_size
    }

    /// The `minor_version` field.
    pub fn minor_version(&self) -> (r: u16)
        ensures
            r == self.minor_version,
    {
        self.minor_version
    }

    /// The `process_affinity_mask` field.
    pub fn process_affinity_mask(&self) -> (r: u64)
        ensures
            r == self.process_affinity_mask,
    {
        self.process_affinity_mask
    }

    /// The `process_heap_flags` field.
    pub fn process_heap_flags(&self) -> (r: u32)
        ensures
            r == self.process_heap_flags,
    {
        self.process_heap_flags
    }

    /// The `se_handler_count` field.
    pub fn se_handler_count(&self) -> (r: u64)
        ensures
            r == self.se_handler_count,
    {
        self.se_handler_count
    }

    /// The `se_handler_table` field.
    pub fn se_handler_table(&self) -> (r: u64)
        ensures
            r == self.se_handler_table,
    {
        self.se_handler_table
    }

    /// The `security_cookie` field.
    pub fn security_cookie(&self) -> (r: u64)
        ensures
            r == self.security_cookie,
    {
        self.security_cookie
    }

    /// The declared size of the structure.
    pub fn size(&self) -> (r: u32)
        ensures
            r == self.size,
    {
        self.size
    }

    /// The record timestamp.
    pub fn time_date_stamp(&self) -> (r: u32)
        ensures
            r == self.time_date_stamp,
    {
        self.time_date_stamp
    }

    /// The `virtual_memory_threshold` field.
    pub fn virtual_memory_threshold(&self) -> (r: u64)
        ensures
            r == self.virtual_memory_threshold,
    {
        self.virtual_memory_threshold
    }

    /// The `volatile_metadata_pointer` field.
    pub fn volatile_metadata_pointer(&self) -> (r: u64)
        ensures
            r == self.volatile_metadata_pointer,
    {
        self.volatile_metadata_pointer
    }

    /// The embedded code-integrity record.
    pub fn code_integrity(&self) -> (r: &LoadConfigCodeIntegrity)
        ensures
            r == &self.code_integrity,
    {
        &self.code_integrity
    }
}

} // verus!
