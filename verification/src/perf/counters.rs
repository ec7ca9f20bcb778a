//! Counters of what the kernel does.
//!
//! Counters are kept only where they are enabled. They wrap around.

use vstd::prelude::*;

verus! {

/// All counters.
#[derive(Debug, Clone, Copy, PartialEq, Eq, Structural)]
pub struct Snapshot {
    pub file_closes: usize,
    pub close_data_writebacks: usize,
    pub explicit_fsyncs: usize,
    pub filesystem_flushes: usize,
    pub block_read_requests: usize,
    pub block_read_bytes: usize,
    pub block_read_ticks: usize,
    pub block_read_512_or_less: usize,
    pub block_read_4k_or_less: usize,
    pub block_read_64k_or_less: usize,
    pub block_read_over_64k: usize,
    pub block_write_requests: usize,
    pub block_write_bytes: usize,
    pub block_write_ticks: usize,
    pub block_flushes: usize,
    pub page_cache_hits: usize,
    pub page_cache_misses: usize,
    pub page_cache_evictions: usize,
    pub page_cache_writeback_bytes: usize,
    pub page_cache_fill_calls: usize,
    pub page_cache_fill_bytes: usize,
    pub page_cache_fill_candidate_pages: usize,
    pub page_cache_fill_published_pages: usize,
    pub page_cache_fill_raced_pages: usize,
    pub inode_read_calls: usize,
    pub inode_read_requested_bytes: usize,
    pub inode_read_completed_bytes: usize,
    pub inode_read_ticks: usize,
    pub ext4_stat_calls: usize,
    pub ext4_stat_ticks: usize,
    pub ext4_stat_cache_hits: usize,
    pub ext4_stat_cache_misses: usize,
    pub ext4_stat_cache_refills: usize,
    pub ext4_stat_cache_uncacheable: usize,
    pub ext4_stat_cache_invalidations: usize,
    pub ext4_lookup_calls: usize,
    pub ext4_lookup_ticks: usize,
    pub ext4_readdir_calls: usize,
    pub ext4_readdir_ticks: usize,
    pub ext4_readdir_dirent_type_known: usize,
    pub ext4_readdir_dirent_type_unknown: usize,
    pub ext4_create_calls: usize,
    pub ext4_create_ticks: usize,
    pub ext4_write_calls: usize,
    pub ext4_write_ticks: usize,
    pub ext4_set_times_calls: usize,
    pub ext4_set_times_atime_updates: usize,
    pub ext4_set_times_mtime_updates: usize,
    pub ext4_set_mode_calls: usize,
    pub ext4_set_owner_calls: usize,
    pub dentry_cache_hits: usize,
    pub dentry_cache_misses: usize,
    pub dentry_cache_evictions: usize,
    pub dirty_pages_peak: usize,
    pub anonymous_faults: usize,
    pub private_file_faults: usize,
    pub shared_file_faults: usize,
    pub cow_faults: usize,
    pub context_switches: usize,
    pub local_sfences: usize,
    pub local_sfence_ticks: usize,
    pub local_sfence_max_ticks: usize,
    pub remote_rfences: usize,
    pub remote_rfence_target_harts: usize,
    pub remote_rfence_empty_requests: usize,
    pub remote_rfence_wait_ticks: usize,
    pub remote_rfence_max_wait_ticks: usize,
    pub full_tlb_invalidations: usize,
    pub asid_tlb_invalidations: usize,
    pub tlb_shootdown_all_requests: usize,
    pub tlb_shootdown_address_space_requests: usize,
    pub tlb_shootdown_range_requests: usize,
    pub tlb_shootdown_range_pages: usize,
    pub tlb_shootdown_range_max_pages: usize,
    pub tlb_shootdown_range_single_page: usize,
    pub tlb_shootdown_range_le16_pages: usize,
    pub tlb_shootdown_range_le256_pages: usize,
    pub tlb_shootdown_range_gt256_pages: usize,
    pub tlb_shootdown_invalid_requests: usize,
    pub tlb_flush_calls: usize,
    pub tlb_fresh_map_flushes: usize,
    pub tlb_cow_flushes: usize,
    pub tlb_flush_retired_batches: usize,
    pub tlb_flush_retired_frames: usize,
    pub scheduler_ipis: usize,
    pub ipis_received: usize,
    pub scheduler_lock_acquisitions: usize,
    pub scheduler_lock_wait_ticks: usize,
    pub scheduler_lock_max_wait_ticks: usize,
    pub scheduler_ready_peak: usize,
    pub concurrency_samples: usize,
    pub running_harts_0: usize,
    pub running_harts_1: usize,
    pub running_harts_2_3: usize,
    pub running_harts_4_7: usize,
    pub running_harts_8_plus: usize,
    pub scheduler_ready_0: usize,
    pub scheduler_ready_1: usize,
    pub scheduler_ready_2_3: usize,
    pub scheduler_ready_4_7: usize,
    pub scheduler_ready_8_plus: usize,
    pub scheduler_yields: usize,
    pub syscall_yields: usize,
    pub quiescence_yields: usize,
    pub fs_yields: usize,
    pub stdio_yields: usize,
    pub tty_yields: usize,
    pub pipe_yields: usize,
    pub fs_syscall_yields: usize,
    pub futex_yields: usize,
    pub net_yields: usize,
    pub unix_socket_yields: usize,
    pub tcp_wait_yields: usize,
    pub tcp_connect_yields: usize,
    pub udp_wait_yields: usize,
    pub process_yields: usize,
    pub signal_time_yields: usize,
    pub special_fd_yields: usize,
    pub timer_preemptions: usize,
    pub blocking_switches: usize,
    pub task_running_ticks: usize,
    pub idle_ticks: usize,
    pub user_traps: usize,
    pub user_syscall_traps: usize,
    pub user_page_fault_traps: usize,
    pub user_timer_traps: usize,
    pub user_ipi_traps: usize,
    pub extension_state_eager_saves: usize,
    pub ext4_lock_acquisitions: usize,
    pub ext4_lock_wait_ticks: usize,
    pub ext4_lock_hold_ticks: usize,
    pub ext4_lock_max_wait_ticks: usize,
    pub ext4_lock_max_hold_ticks: usize,
    pub ext4_lock_stat_acquisitions: usize,
    pub ext4_lock_stat_wait_ticks: usize,
    pub ext4_lock_stat_hold_ticks: usize,
    pub ext4_lock_lookup_acquisitions: usize,
    pub ext4_lock_lookup_wait_ticks: usize,
    pub ext4_lock_lookup_hold_ticks: usize,
    pub ext4_lock_read_acquisitions: usize,
    pub ext4_lock_read_wait_ticks: usize,
    pub ext4_lock_read_hold_ticks: usize,
    pub ext4_lock_write_acquisitions: usize,
    pub ext4_lock_write_wait_ticks: usize,
    pub ext4_lock_write_hold_ticks: usize,
    pub ext4_lock_readdir_acquisitions: usize,
    pub ext4_lock_readdir_wait_ticks: usize,
    pub ext4_lock_readdir_hold_ticks: usize,
    pub ext4_lock_namespace_acquisitions: usize,
    pub ext4_lock_namespace_wait_ticks: usize,
    pub ext4_lock_namespace_hold_ticks: usize,
    pub ext4_lock_attributes_acquisitions: usize,
    pub ext4_lock_attributes_wait_ticks: usize,
    pub ext4_lock_attributes_hold_ticks: usize,
    pub ext4_lock_superblock_acquisitions: usize,
    pub ext4_lock_superblock_wait_ticks: usize,
    pub ext4_lock_superblock_hold_ticks: usize,
    pub ext4_lower_calls: usize,
    pub ext4_lower_ticks: usize,
    pub ext4_lower_stat_calls: usize,
    pub ext4_lower_stat_ticks: usize,
    pub ext4_lower_lookup_calls: usize,
    pub ext4_lower_lookup_ticks: usize,
    pub ext4_lower_read_calls: usize,
    pub ext4_lower_read_ticks: usize,
    pub ext4_lower_write_calls: usize,
    pub ext4_lower_write_ticks: usize,
    pub ext4_lower_readdir_calls: usize,
    pub ext4_lower_readdir_ticks: usize,
    pub ext4_lower_namespace_calls: usize,
    pub ext4_lower_namespace_ticks: usize,
    pub ext4_lower_attributes_calls: usize,
    pub ext4_lower_attributes_ticks: usize,
    pub ext4_lower_superblock_calls: usize,
    pub ext4_lower_superblock_ticks: usize,
    pub frame_alloc_calls: usize,
    pub frame_alloc_failures: usize,
    pub frame_alloc_ticks: usize,
    pub frame_alloc_lock_wait_ticks: usize,
    pub frame_alloc_core_ticks: usize,
    pub frame_alloc_clear_ticks: usize,
    pub frame_alloc_max_ticks: usize,
    pub frame_dealloc_calls: usize,
    pub frame_dealloc_ticks: usize,
    pub frame_dealloc_lock_wait_ticks: usize,
    pub frame_dealloc_core_ticks: usize,
    pub frame_dealloc_max_ticks: usize,
    pub copy_from_user_calls: usize,
    pub copy_from_user_bytes: usize,
    pub copy_from_user_ticks: usize,
    pub copy_to_user_calls: usize,
    pub copy_to_user_bytes: usize,
    pub copy_to_user_ticks: usize,
}

/// Counters that have counted nothing.
pub open spec fn nothing_counted() -> Snapshot {
    Snapshot {
        file_closes: 0,
        close_data_writebacks: 0,
        explicit_fsyncs: 0,
        filesystem_flushes: 0,
        block_read_requests: 0,
        block_read_bytes: 0,
        block_read_ticks: 0,
        block_read_512_or_less: 0,
        block_read_4k_or_less: 0,
        block_read_64k_or_less: 0,
        block_read_over_64k: 0,
        block_write_requests: 0,
        block_write_bytes: 0,
        block_write_ticks: 0,
        block_flushes: 0,
        page_cache_hits: 0,
        page_cache_misses: 0,
        page_cache_evictions: 0,
        page_cache_writeback_bytes: 0,
        page_cache_fill_calls: 0,
        page_cache_fill_bytes: 0,
        page_cache_fill_candidate_pages: 0,
        page_cache_fill_published_pages: 0,
        page_cache_fill_raced_pages: 0,
        inode_read_calls: 0,
        inode_read_requested_bytes: 0,
        inode_read_completed_bytes: 0,
        inode_read_ticks: 0,
        ext4_stat_calls: 0,
        ext4_stat_ticks: 0,
        ext4_stat_cache_hits: 0,
        ext4_stat_cache_misses: 0,
        ext4_stat_cache_refills: 0,
        ext4_stat_cache_uncacheable: 0,
        ext4_stat_cache_invalidations: 0,
        ext4_lookup_calls: 0,
        ext4_lookup_ticks: 0,
        ext4_readdir_calls: 0,
        ext4_readdir_ticks: 0,
        ext4_readdir_dirent_type_known: 0,
        ext4_readdir_dirent_type_unknown: 0,
        ext4_create_calls: 0,
        ext4_create_ticks: 0,
        ext4_write_calls: 0,
        ext4_write_ticks: 0,
        ext4_set_times_calls: 0,
        ext4_set_times_atime_updates: 0,
        ext4_set_times_mtime_updates: 0,
        ext4_set_mode_calls: 0,
        ext4_set_owner_calls: 0,
        dentry_cache_hits: 0,
        dentry_cache_misses: 0,
        dentry_cache_evictions: 0,
        dirty_pages_peak: 0,
        anonymous_faults: 0,
        private_file_faults: 0,
        shared_file_faults: 0,
        cow_faults: 0,
        context_switches: 0,
        local_sfences: 0,
        local_sfence_ticks: 0,
        local_sfence_max_ticks: 0,
        remote_rfences: 0,
        remote_rfence_target_harts: 0,
        remote_rfence_empty_requests: 0,
        remote_rfence_wait_ticks: 0,
        remote_rfence_max_wait_ticks: 0,
        full_tlb_invalidations: 0,
        asid_tlb_invalidations: 0,
        tlb_shootdown_all_requests: 0,
        tlb_shootdown_address_space_requests: 0,
        tlb_shootdown_range_requests: 0,
        tlb_shootdown_range_pages: 0,
        tlb_shootdown_range_max_pages: 0,
        tlb_shootdown_range_single_page: 0,
        tlb_shootdown_range_le16_pages: 0,
        tlb_shootdown_range_le256_pages: 0,
        tlb_shootdown_range_gt256_pages: 0,
        tlb_shootdown_invalid_requests: 0,
        tlb_flush_calls: 0,
        tlb_fresh_map_flushes: 0,
        tlb_cow_flushes: 0,
        tlb_flush_retired_batches: 0,
        tlb_flush_retired_frames: 0,
        scheduler_ipis: 0,
        ipis_received: 0,
        scheduler_lock_acquisitions: 0,
        scheduler_lock_wait_ticks: 0,
        scheduler_lock_max_wait_ticks: 0,
        scheduler_ready_peak: 0,
        concurrency_samples: 0,
        running_harts_0: 0,
        running_harts_1: 0,
        running_harts_2_3: 0,
        running_harts_4_7: 0,
        running_harts_8_plus: 0,
        scheduler_ready_0: 0,
        scheduler_ready_1: 0,
        scheduler_ready_2_3: 0,
        scheduler_ready_4_7: 0,
        scheduler_ready_8_plus: 0,
        scheduler_yields: 0,
        syscall_yields: 0,
        quiescence_yields: 0,
        fs_yields: 0,
        stdio_yields: 0,
        tty_yields: 0,
        pipe_yields: 0,
        fs_syscall_yields: 0,
        futex_yields: 0,
        net_yields: 0,
        unix_socket_yields: 0,
        tcp_wait_yields: 0,
        tcp_connect_yields: 0,
        udp_wait_yields: 0,
        process_yields: 0,
        signal_time_yields: 0,
        special_fd_yields: 0,
        timer_preemptions: 0,
        blocking_switches: 0,
        task_running_ticks: 0,
        idle_ticks: 0,
        user_traps: 0,
        user_syscall_traps: 0,
        user_page_fault_traps: 0,
        user_timer_traps: 0,
        user_ipi_traps: 0,
        extension_state_eager_saves: 0,
        ext4_lock_acquisitions: 0,
        ext4_lock_wait_ticks: 0,
        ext4_lock_hold_ticks: 0,
        ext4_lock_max_wait_ticks: 0,
        ext4_lock_max_hold_ticks: 0,
        ext4_lock_stat_acquisitions: 0,
        ext4_lock_stat_wait_ticks: 0,
        ext4_lock_stat_hold_ticks: 0,
        ext4_lock_lookup_acquisitions: 0,
        ext4_lock_lookup_wait_ticks: 0,
        ext4_lock_lookup_hold_ticks: 0,
        ext4_lock_read_acquisitions: 0,
        ext4_lock_read_wait_ticks: 0,
        ext4_lock_read_hold_ticks: 0,
        ext4_lock_write_acquisitions: 0,
        ext4_lock_write_wait_ticks: 0,
        ext4_lock_write_hold_ticks: 0,
        ext4_lock_readdir_acquisitions: 0,
        ext4_lock_readdir_wait_ticks: 0,
        ext4_lock_readdir_hold_ticks: 0,
        ext4_lock_namespace_acquisitions: 0,
        ext4_lock_namespace_wait_ticks: 0,
        ext4_lock_namespace_hold_ticks: 0,
        ext4_lock_attributes_acquisitions: 0,
        ext4_lock_attributes_wait_ticks: 0,
        ext4_lock_attributes_hold_ticks: 0,
        ext4_lock_superblock_acquisitions: 0,
        ext4_lock_superblock_wait_ticks: 0,
        ext4_lock_superblock_hold_ticks: 0,
        ext4_lower_calls: 0,
        ext4_lower_ticks: 0,
        ext4_lower_stat_calls: 0,
        ext4_lower_stat_ticks: 0,
        ext4_lower_lookup_calls: 0,
        ext4_lower_lookup_ticks: 0,
        ext4_lower_read_calls: 0,
        ext4_lower_read_ticks: 0,
        ext4_lower_write_calls: 0,
        ext4_lower_write_ticks: 0,
        ext4_lower_readdir_calls: 0,
        ext4_lower_readdir_ticks: 0,
        ext4_lower_namespace_calls: 0,
        ext4_lower_namespace_ticks: 0,
        ext4_lower_attributes_calls: 0,
        ext4_lower_attributes_ticks: 0,
        ext4_lower_superblock_calls: 0,
        ext4_lower_superblock_ticks: 0,
        frame_alloc_calls: 0,
        frame_alloc_failures: 0,
        frame_alloc_ticks: 0,
        frame_alloc_lock_wait_ticks: 0,
        frame_alloc_core_ticks: 0,
        frame_alloc_clear_ticks: 0,
        frame_alloc_max_ticks: 0,
        frame_dealloc_calls: 0,
        frame_dealloc_ticks: 0,
        frame_dealloc_lock_wait_ticks: 0,
        frame_dealloc_core_ticks: 0,
        frame_dealloc_max_ticks: 0,
        copy_from_user_calls: 0,
        copy_from_user_bytes: 0,
        copy_from_user_ticks: 0,
        copy_to_user_calls: 0,
        copy_to_user_bytes: 0,
        copy_to_user_ticks: 0,
    }
}

impl Default for Snapshot {
    fn default() -> (r: Self)
        ensures
            r == nothing_counted(),
    {
        Snapshot {
            file_closes: 0,
            close_data_writebacks: 0,
            explicit_fsyncs: 0,
            filesystem_flushes: 0,
            block_read_requests: 0,
            block_read_bytes: 0,
            block_read_ticks: 0,
            block_read_512_or_less: 0,
            block_read_4k_or_less: 0,
            block_read_64k_or_less: 0,
            block_read_over_64k: 0,
            block_write_requests: 0,
            block_write_bytes: 0,
            block_write_ticks: 0,
            block_flushes: 0,
            page_cache_hits: 0,
            page_cache_misses: 0,
            page_cache_evictions: 0,
            page_cache_writeback_bytes: 0,
            page_cache_fill_calls: 0,
            page_cache_fill_bytes: 0,
            page_cache_fill_candidate_pages: 0,
            page_cache_fill_published_pages: 0,
            page_cache_fill_raced_pages: 0,
            inode_read_calls: 0,
            inode_read_requested_bytes: 0,
            inode_read_completed_bytes: 0,
            inode_read_ticks: 0,
            ext4_stat_calls: 0,
            ext4_stat_ticks: 0,
            ext4_stat_cache_hits: 0,
            ext4_stat_cache_misses: 0,
            ext4_stat_cache_refills: 0,
            ext4_stat_cache_uncacheable: 0,
            ext4_stat_cache_invalidations: 0,
            ext4_lookup_calls: 0,
            ext4_lookup_ticks: 0,
            ext4_readdir_calls: 0,
            ext4_readdir_ticks: 0,
            ext4_readdir_dirent_type_known: 0,
            ext4_readdir_dirent_type_unknown: 0,
            ext4_create_calls: 0,
            ext4_create_ticks: 0,
            ext4_write_calls: 0,
            ext4_write_ticks: 0,
            ext4_set_times_calls: 0,
            ext4_set_times_atime_updates: 0,
            ext4_set_times_mtime_updates: 0,
            ext4_set_mode_calls: 0,
            ext4_set_owner_calls: 0,
            dentry_cache_hits: 0,
            dentry_cache_misses: 0,
            dentry_cache_evictions: 0,
            dirty_pages_peak: 0,
            anonymous_faults: 0,
            private_file_faults: 0,
            shared_file_faults: 0,
            cow_faults: 0,
            context_switches: 0,
            local_sfences: 0,
            local_sfence_ticks: 0,
            local_sfence_max_ticks: 0,
            remote_rfences: 0,
            remote_rfence_target_harts: 0,
            remote_rfence_empty_requests: 0,
            remote_rfence_wait_ticks: 0,
            remote_rfence_max_wait_ticks: 0,
            full_tlb_invalidations: 0,
            asid_tlb_invalidations: 0,
            tlb_shootdown_all_requests: 0,
            tlb_shootdown_address_space_requests: 0,
            tlb_shootdown_range_requests: 0,
            tlb_shootdown_range_pages: 0,
            tlb_shootdown_range_max_pages: 0,
            tlb_shootdown_range_single_page: 0,
            tlb_shootdown_range_le16_pages: 0,
            tlb_shootdown_range_le256_pages: 0,
            tlb_shootdown_range_gt256_pages: 0,
            tlb_shootdown_invalid_requests: 0,
            tlb_flush_calls: 0,
            tlb_fresh_map_flushes: 0,
            tlb_cow_flushes: 0,
            tlb_flush_retired_batches: 0,
            tlb_flush_retired_frames: 0,
            scheduler_ipis: 0,
            ipis_received: 0,
            scheduler_lock_acquisitions: 0,
            scheduler_lock_wait_ticks: 0,
            scheduler_lock_max_wait_ticks: 0,
            scheduler_ready_peak: 0,
            concurrency_samples: 0,
            running_harts_0: 0,
            running_harts_1: 0,
            running_harts_2_3: 0,
            running_harts_4_7: 0,
            running_harts_8_plus: 0,
            scheduler_ready_0: 0,
            scheduler_ready_1: 0,
            scheduler_ready_2_3: 0,
            scheduler_ready_4_7: 0,
            scheduler_ready_8_plus: 0,
            scheduler_yields: 0,
            syscall_yields: 0,
            quiescence_yields: 0,
            fs_yields: 0,
            stdio_yields: 0,
            tty_yields: 0,
            pipe_yields: 0,
            fs_syscall_yields: 0,
            futex_yields: 0,
            net_yields: 0,
            unix_socket_yields: 0,
            tcp_wait_yields: 0,
            tcp_connect_yields: 0,
            udp_wait_yields: 0,
            process_yields: 0,
            signal_time_yields: 0,
            special_fd_yields: 0,
            timer_preemptions: 0,
            blocking_switches: 0,
            task_running_ticks: 0,
            idle_ticks: 0,
            user_traps: 0,
            user_syscall_traps: 0,
            user_page_fault_traps: 0,
            user_timer_traps: 0,
            user_ipi_traps: 0,
            extension_state_eager_saves: 0,
            ext4_lock_acquisitions: 0,
            ext4_lock_wait_ticks: 0,
            ext4_lock_hold_ticks: 0,
            ext4_lock_max_wait_ticks: 0,
            ext4_lock_max_hold_ticks: 0,
            ext4_lock_stat_acquisitions: 0,
            ext4_lock_stat_wait_ticks: 0,
            ext4_lock_stat_hold_ticks: 0,
            ext4_lock_lookup_acquisitions: 0,
            ext4_lock_lookup_wait_ticks: 0,
            ext4_lock_lookup_hold_ticks: 0,
            ext4_lock_read_acquisitions: 0,
            ext4_lock_read_wait_ticks: 0,
            ext4_lock_read_hold_ticks: 0,
            ext4_lock_write_acquisitions: 0,
            ext4_lock_write_wait_ticks: 0,
            ext4_lock_write_hold_ticks: 0,
            ext4_lock_readdir_acquisitions: 0,
            ext4_lock_readdir_wait_ticks: 0,
            ext4_lock_readdir_hold_ticks: 0,
            ext4_lock_namespace_acquisitions: 0,
            ext4_lock_namespace_wait_ticks: 0,
            ext4_lock_namespace_hold_ticks: 0,
            ext4_lock_attributes_acquisitions: 0,
            ext4_lock_attributes_wait_ticks: 0,
            ext4_lock_attributes_hold_ticks: 0,
            ext4_lock_superblock_acquisitions: 0,
            ext4_lock_superblock_wait_ticks: 0,
            ext4_lock_superblock_hold_ticks: 0,
            ext4_lower_calls: 0,
            ext4_lower_ticks: 0,
            ext4_lower_stat_calls: 0,
            ext4_lower_stat_ticks: 0,
            ext4_lower_lookup_calls: 0,
            ext4_lower_lookup_ticks: 0,
            ext4_lower_read_calls: 0,
            ext4_lower_read_ticks: 0,
            ext4_lower_write_calls: 0,
            ext4_lower_write_ticks: 0,
            ext4_lower_readdir_calls: 0,
            ext4_lower_readdir_ticks: 0,
            ext4_lower_namespace_calls: 0,
            ext4_lower_namespace_ticks: 0,
            ext4_lower_attributes_calls: 0,
            ext4_lower_attributes_ticks: 0,
            ext4_lower_superblock_calls: 0,
            ext4_lower_superblock_ticks: 0,
            frame_alloc_calls: 0,
            frame_alloc_failures: 0,
            frame_alloc_ticks: 0,
            frame_alloc_lock_wait_ticks: 0,
            frame_alloc_core_ticks: 0,
            frame_alloc_clear_ticks: 0,
            frame_alloc_max_ticks: 0,
            frame_dealloc_calls: 0,
            frame_dealloc_ticks: 0,
            frame_dealloc_lock_wait_ticks: 0,
            frame_dealloc_core_ticks: 0,
            frame_dealloc_max_ticks: 0,
            copy_from_user_calls: 0,
            copy_from_user_bytes: 0,
            copy_from_user_ticks: 0,
            copy_to_user_calls: 0,
            copy_to_user_bytes: 0,
            copy_to_user_ticks: 0,
        }
    }
}

/// The counters, and what is going on just now.
#[derive(Debug, Clone, Copy, PartialEq, Eq, Structural)]
pub struct Counters {
    /// Counting is on.
    pub enabled: bool,
    pub counts: Snapshot,
    /// Threads that are ready to run.
    pub ready_now: usize,
    /// Processors that run a thread.
    pub running_now: usize,
}

/// The counters with these counts, if counting is on.
pub open spec fn counted(c: Counters, s: Snapshot) -> Counters {
    if c.enabled {
        Counters { counts: s, ..c }
    } else {
        c
    }
}

/// The larger of two numbers.
pub open spec fn larger(a: usize, b: usize) -> usize {
    if a < b {
        b
    } else {
        a
    }
}

fn max(a: usize, b: usize) -> (r: usize)
    ensures
        r == larger(a, b),
{
    if a < b {
        b
    } else {
        a
    }
}

impl Counters {
    /// Counters that have counted nothing.
    pub fn new(enabled: bool) -> (r: Self)
        ensures
            r == (Counters {
                enabled,
                counts: nothing_counted(),
                ready_now: 0,
                running_now: 0,
            }),
    {
        Counters { enabled, counts: Snapshot::default(), ready_now: 0, running_now: 0 }
    }

    /// The counts as they are now; none where counting is off.
    pub fn snapshot(&self) -> (r: Snapshot)
        ensures
            r == (if self.enabled {
                self.counts
            } else {
                nothing_counted()
            }),
    {
        if self.enabled {
            self.counts
        } else {
            Snapshot::default()
        }
    }

    /// Starts all counts anew. The peak of dirty pages starts with those that
    /// there are.
    pub fn reset(&mut self, dirty_pages: usize)
        ensures
            *final(self) == counted(
                *old(self),
                Snapshot { dirty_pages_peak: dirty_pages, ..nothing_counted() },
            ),
    {
        if self.enabled {
            self.counts = Snapshot::default();
            self.counts.dirty_pages_peak = dirty_pages;
        }
    }
}

/// Adds to `file_closes`.
pub fn file_close(c: &mut Counters, value: usize)
    ensures
        *final(c) == counted(
            *old(c),
            Snapshot { file_closes: old(c).counts.file_closes.wrapping_add(value), ..old(c).counts },
        ),
{
    if c.enabled {
        c.counts.file_closes = c.counts.file_closes.wrapping_add(value);
    }
}

/// Adds to `close_data_writebacks`.
pub fn close_data_writeback(c: &mut Counters, value: usize)
    ensures
        *final(c) == counted(
            *old(c),
            Snapshot { close_data_writebacks: old(c).counts.close_data_writebacks.wrapping_add(value), ..old(c).counts },
        ),
{
    if c.enabled {
        c.counts.close_data_writebacks = c.counts.close_data_writebacks.wrapping_add(value);
    }
}

/// Adds to `explicit_fsyncs`.
pub fn explicit_fsync(c: &mut Counters, value: usize)
    ensures
        *final(c) == counted(
            *old(c),
            Snapshot { explicit_fsyncs: old(c).counts.explicit_fsyncs.wrapping_add(value), ..old(c).counts },
        ),
{
    if c.enabled {
        c.counts.explicit_fsyncs = c.counts.explicit_fsyncs.wrapping_add(value);
    }
}

/// Adds to `filesystem_flushes`.
pub fn filesystem_flush(c: &mut Counters, value: usize)
    ensures
        *final(c) == counted(
            *old(c),
            Snapshot { filesystem_flushes: old(c).counts.filesystem_flushes.wrapping_add(value), ..old(c).counts },
        ),
{
    if c.enabled {
        c.counts.filesystem_flushes = c.counts.filesystem_flushes.wrapping_add(value);
    }
}

/// Adds to `block_read_requests`.
pub fn block_read_request(c: &mut Counters, value: usize)
    ensures
        *final(c) == counted(
            *old(c),
            Snapshot { block_read_requests: old(c).counts.block_read_requests.wrapping_add(value), ..old(c).counts },
        ),
{
    if c.enabled {
        c.counts.block_read_requests = c.counts.block_read_requests.wrapping_add(value);
    }
}

/// Adds to `block_read_bytes`.
pub fn block_read_bytes(c: &mut Counters, value: usize)
    ensures
        *final(c) == counted(
            *old(c),
            Snapshot { block_read_bytes: old(c).counts.block_read_bytes.wrapping_add(value), ..old(c).counts },
        ),
{
    if c.enabled {
        c.counts.block_read_bytes = c.counts.block_read_bytes.wrapping_add(value);
    }
}

/// Adds to `block_read_ticks`.
pub fn block_read_ticks(c: &mut Counters, value: usize)
    ensures
        *final(c) == counted(
            *old(c),
            Snapshot { block_read_ticks: old(c).counts.block_read_ticks.wrapping_add(value), ..old(c).counts },
        ),
{
    if c.enabled {
        c.counts.block_read_ticks = c.counts.block_read_ticks.wrapping_add(value);
    }
}

/// Adds to `block_write_requests`.
pub fn block_write_request(c: &mut Counters, value: usize)
    ensures
        *final(c) == counted(
            *old(c),
            Snapshot { block_write_requests: old(c).counts.block_write_requests.wrapping_add(value), ..old(c).counts },
        ),
{
    if c.enabled {
        c.counts.block_write_requests = c.counts.block_write_requests.wrapping_add(value);
    }
}

/// Adds to `block_write_bytes`.
pub fn block_write_bytes(c: &mut Counters, value: usize)
    ensures
        *final(c) == counted(
            *old(c),
            Snapshot { block_write_bytes: old(c).counts.block_write_bytes.wrapping_add(value), ..old(c).counts },
        ),
{
    if c.enabled {
        c.counts.block_write_bytes = c.counts.block_write_bytes.wrapping_add(value);
    }
}

/// Adds to `block_write_ticks`.
pub fn block_write_ticks(c: &mut Counters, value: usize)
    ensures
        *final(c) == counted(
            *old(c),
            Snapshot { block_write_ticks: old(c).counts.block_write_ticks.wrapping_add(value), ..old(c).counts },
        ),
{
    if c.enabled {
        c.counts.block_write_ticks = c.counts.block_write_ticks.wrapping_add(value);
    }
}

/// Adds to `block_flushes`.
pub fn block_flush(c: &mut Counters, value: usize)
    ensures
        *final(c) == counted(
            *old(c),
            Snapshot { block_flushes: old(c).counts.block_flushes.wrapping_add(value), ..old(c).counts },
        ),
{
    if c.enabled {
        c.counts.block_flushes = c.counts.block_flushes.wrapping_add(value);
    }
}

/// Adds to `page_cache_hits`.
pub fn page_cache_hit(c: &mut Counters, value: usize)
    ensures
        *final(c) == counted(
            *old(c),
            Snapshot { page_cache_hits: old(c).counts.page_cache_hits.wrapping_add(value), ..old(c).counts },
        ),
{
    if c.enabled {
        c.counts.page_cache_hits = c.counts.page_cache_hits.wrapping_add(value);
    }
}

/// Adds to `page_cache_misses`.
pub fn page_cache_miss(c: &mut Counters, value: usize)
    ensures
        *final(c) == counted(
            *old(c),
            Snapshot { page_cache_misses: old(c).counts.page_cache_misses.wrapping_add(value), ..old(c).counts },
        ),
{
    if c.enabled {
        c.counts.page_cache_misses = c.counts.page_cache_misses.wrapping_add(value);
    }
}

/// Adds to `page_cache_evictions`.
pub fn page_cache_eviction(c: &mut Counters, value: usize)
    ensures
        *final(c) == counted(
            *old(c),
            Snapshot { page_cache_evictions: old(c).counts.page_cache_evictions.wrapping_add(value), ..old(c).counts },
        ),
{
    if c.enabled {
        c.counts.page_cache_evictions = c.counts.page_cache_evictions.wrapping_add(value);
    }
}

/// Adds to `page_cache_writeback_bytes`.
pub fn page_cache_writeback_bytes(c: &mut Counters, value: usize)
    ensures
        *final(c) == counted(
            *old(c),
            Snapshot { page_cache_writeback_bytes: old(c).counts.page_cache_writeback_bytes.wrapping_add(value), ..old(c).counts },
        ),
{
    if c.enabled {
        c.counts.page_cache_writeback_bytes = c.counts.page_cache_writeback_bytes.wrapping_add(value);
    }
}

/// Adds to `page_cache_fill_calls`.
pub fn page_cache_fill_call(c: &mut Counters, value: usize)
    ensures
        *final(c) == counted(
            *old(c),
            Snapshot { page_cache_fill_calls: old(c).counts.page_cache_fill_calls.wrapping_add(value), ..old(c).counts },
        ),
{
    if c.enabled {
        c.counts.page_cache_fill_calls = c.counts.page_cache_fill_calls.wrapping_add(value);
    }
}

/// Adds to `page_cache_fill_bytes`.
pub fn page_cache_fill_bytes(c: &mut Counters, value: usize)
    ensures
        *final(c) == counted(
            *old(c),
            Snapshot { page_cache_fill_bytes: old(c).counts.page_cache_fill_bytes.wrapping_add(value), ..old(c).counts },
        ),
{
    if c.enabled {
        c.counts.page_cache_fill_bytes = c.counts.page_cache_fill_bytes.wrapping_add(value);
    }
}

/// Adds to `page_cache_fill_candidate_pages`.
pub fn page_cache_fill_candidate_pages(c: &mut Counters, value: usize)
    ensures
        *final(c) == counted(
            *old(c),
            Snapshot { page_cache_fill_candidate_pages: old(c).counts.page_cache_fill_candidate_pages.wrapping_add(value), ..old(c).counts },
        ),
{
    if c.enabled {
        c.counts.page_cache_fill_candidate_pages = c.counts.page_cache_fill_candidate_pages.wrapping_add(value);
    }
}

/// Adds to `page_cache_fill_published_pages`.
pub fn page_cache_fill_published_pages(c: &mut Counters, value: usize)
    ensures
        *final(c) == counted(
            *old(c),
            Snapshot { page_cache_fill_published_pages: old(c).counts.page_cache_fill_published_pages.wrapping_add(value), ..old(c).counts },
        ),
{
    if c.enabled {
        c.counts.page_cache_fill_published_pages = c.counts.page_cache_fill_published_pages.wrapping_add(value);
    }
}

/// Adds to `page_cache_fill_raced_pages`.
pub fn page_cache_fill_raced_pages(c: &mut Counters, value: usize)
    ensures
        *final(c) == counted(
            *old(c),
            Snapshot { page_cache_fill_raced_pages: old(c).counts.page_cache_fill_raced_pages.wrapping_add(value), ..old(c).counts },
        ),
{
    if c.enabled {
        c.counts.page_cache_fill_raced_pages = c.counts.page_cache_fill_raced_pages.wrapping_add(value);
    }
}

/// Adds to `inode_read_calls`.
pub fn inode_read_call(c: &mut Counters, value: usize)
    ensures
        *final(c) == counted(
            *old(c),
            Snapshot { inode_read_calls: old(c).counts.inode_read_calls.wrapping_add(value), ..old(c).counts },
        ),
{
    if c.enabled {
        c.counts.inode_read_calls = c.counts.inode_read_calls.wrapping_add(value);
    }
}

/// Adds to `inode_read_requested_bytes`.
pub fn inode_read_requested_bytes(c: &mut Counters, value: usize)
    ensures
        *final(c) == counted(
            *old(c),
            Snapshot { inode_read_requested_bytes: old(c).counts.inode_read_requested_bytes.wrapping_add(value), ..old(c).counts },
        ),
{
    if c.enabled {
        c.counts.inode_read_requested_bytes = c.counts.inode_read_requested_bytes.wrapping_add(value);
    }
}

/// Adds to `inode_read_completed_bytes`.
pub fn inode_read_completed_bytes(c: &mut Counters, value: usize)
    ensures
        *final(c) == counted(
            *old(c),
            Snapshot { inode_read_completed_bytes: old(c).counts.inode_read_completed_bytes.wrapping_add(value), ..old(c).counts },
        ),
{
    if c.enabled {
        c.counts.inode_read_completed_bytes = c.counts.inode_read_completed_bytes.wrapping_add(value);
    }
}

/// Adds to `inode_read_ticks`.
pub fn inode_read_ticks(c: &mut Counters, value: usize)
    ensures
        *final(c) == counted(
            *old(c),
            Snapshot { inode_read_ticks: old(c).counts.inode_read_ticks.wrapping_add(value), ..old(c).counts },
        ),
{
    if c.enabled {
        c.counts.inode_read_ticks = c.counts.inode_read_ticks.wrapping_add(value);
    }
}

/// Adds to `ext4_stat_calls`.
pub fn ext4_stat_call(c: &mut Counters, value: usize)
    ensures
        *final(c) == counted(
            *old(c),
            Snapshot { ext4_stat_calls: old(c).counts.ext4_stat_calls.wrapping_add(value), ..old(c).counts },
        ),
{
    if c.enabled {
        c.counts.ext4_stat_calls = c.counts.ext4_stat_calls.wrapping_add(value);
    }
}

/// Adds to `ext4_stat_ticks`.
pub fn ext4_stat_ticks(c: &mut Counters, value: usize)
    ensures
        *final(c) == counted(
            *old(c),
            Snapshot { ext4_stat_ticks: old(c).counts.ext4_stat_ticks.wrapping_add(value), ..old(c).counts },
        ),
{
    if c.enabled {
        c.counts.ext4_stat_ticks = c.counts.ext4_stat_ticks.wrapping_add(value);
    }
}

/// Adds to `ext4_stat_cache_hits`.
pub fn ext4_stat_cache_hit(c: &mut Counters, value: usize)
    ensures
        *final(c) == counted(
            *old(c),
            Snapshot { ext4_stat_cache_hits: old(c).counts.ext4_stat_cache_hits.wrapping_add(value), ..old(c).counts },
        ),
{
    if c.enabled {
        c.counts.ext4_stat_cache_hits = c.counts.ext4_stat_cache_hits.wrapping_add(value);
    }
}

/// Adds to `ext4_stat_cache_misses`.
pub fn ext4_stat_cache_miss(c: &mut Counters, value: usize)
    ensures
        *final(c) == counted(
            *old(c),
            Snapshot { ext4_stat_cache_misses: old(c).counts.ext4_stat_cache_misses.wrapping_add(value), ..old(c).counts },
        ),
{
    if c.enabled {
        c.counts.ext4_stat_cache_misses = c.counts.ext4_stat_cache_misses.wrapping_add(value);
    }
}

/// Adds to `ext4_stat_cache_refills`.
pub fn ext4_stat_cache_refill(c: &mut Counters, value: usize)
    ensures
        *final(c) == counted(
            *old(c),
            Snapshot { ext4_stat_cache_refills: old(c).counts.ext4_stat_cache_refills.wrapping_add(value), ..old(c).counts },
        ),
{
    if c.enabled {
        c.counts.ext4_stat_cache_refills = c.counts.ext4_stat_cache_refills.wrapping_add(value);
    }
}

/// Adds to `ext4_stat_cache_uncacheable`.
pub fn ext4_stat_cache_uncacheable(c: &mut Counters, value: usize)
    ensures
        *final(c) == counted(
            *old(c),
            Snapshot { ext4_stat_cache_uncacheable: old(c).counts.ext4_stat_cache_uncacheable.wrapping_add(value), ..old(c).counts },
        ),
{
    if c.enabled {
        c.counts.ext4_stat_cache_uncacheable = c.counts.ext4_stat_cache_uncacheable.wrapping_add(value);
    }
}

/// Adds to `ext4_stat_cache_invalidations`.
pub fn ext4_stat_cache_invalidation(c: &mut Counters, value: usize)
    ensures
        *final(c) == counted(
            *old(c),
            Snapshot { ext4_stat_cache_invalidations: old(c).counts.ext4_stat_cache_invalidations.wrapping_add(value), ..old(c).counts },
        ),
{
    if c.enabled {
        c.counts.ext4_stat_cache_invalidations = c.counts.ext4_stat_cache_invalidations.wrapping_add(value);
    }
}

/// Adds to `ext4_lookup_calls`.
pub fn ext4_lookup_call(c: &mut Counters, value: usize)
    ensures
        *final(c) == counted(
            *old(c),
            Snapshot { ext4_lookup_calls: old(c).counts.ext4_lookup_calls.wrapping_add(value), ..old(c).counts },
        ),
{
    if c.enabled {
        c.counts.ext4_lookup_calls = c.counts.ext4_lookup_calls.wrapping_add(value);
    }
}

/// Adds to `ext4_lookup_ticks`.
pub fn ext4_lookup_ticks(c: &mut Counters, value: usize)
    ensures
        *final(c) == counted(
            *old(c),
            Snapshot { ext4_lookup_ticks: old(c).counts.ext4_lookup_ticks.wrapping_add(value), ..old(c).counts },
        ),
{
    if c.enabled {
        c.counts.ext4_lookup_ticks = c.counts.ext4_lookup_ticks.wrapping_add(value);
    }
}

/// Adds to `ext4_readdir_calls`.
pub fn ext4_readdir_call(c: &mut Counters, value: usize)
    ensures
        *final(c) == counted(
            *old(c),
            Snapshot { ext4_readdir_calls: old(c).counts.ext4_readdir_calls.wrapping_add(value), ..old(c).counts },
        ),
{
    if c.enabled {
        c.counts.ext4_readdir_calls = c.counts.ext4_readdir_calls.wrapping_add(value);
    }
}

/// Adds to `ext4_readdir_ticks`.
pub fn ext4_readdir_ticks(c: &mut Counters, value: usize)
    ensures
        *final(c) == counted(
            *old(c),
            Snapshot { ext4_readdir_ticks: old(c).counts.ext4_readdir_ticks.wrapping_add(value), ..old(c).counts },
        ),
{
    if c.enabled {
        c.counts.ext4_readdir_ticks = c.counts.ext4_readdir_ticks.wrapping_add(value);
    }
}

/// Adds to `ext4_readdir_dirent_type_known`.
pub fn ext4_readdir_dirent_type_known(c: &mut Counters, value: usize)
    ensures
        *final(c) == counted(
            *old(c),
            Snapshot { ext4_readdir_dirent_type_known: old(c).counts.ext4_readdir_dirent_type_known.wrapping_add(value), ..old(c).counts },
        ),
{
    if c.enabled {
        c.counts.ext4_readdir_dirent_type_known = c.counts.ext4_readdir_dirent_type_known.wrapping_add(value);
    }
}

/// Adds to `ext4_readdir_dirent_type_unknown`.
pub fn ext4_readdir_dirent_type_unknown(c: &mut Counters, value: usize)
    ensures
        *final(c) == counted(
            *old(c),
            Snapshot { ext4_readdir_dirent_type_unknown: old(c).counts.ext4_readdir_dirent_type_unknown.wrapping_add(value), ..old(c).counts },
        ),
{
    if c.enabled {
        c.counts.ext4_readdir_dirent_type_unknown = c.counts.ext4_readdir_dirent_type_unknown.wrapping_add(value);
    }
}

/// Adds to `ext4_create_calls`.
pub fn ext4_create_call(c: &mut Counters, value: usize)
    ensures
        *final(c) == counted(
            *old(c),
            Snapshot { ext4_create_calls: old(c).counts.ext4_create_calls.wrapping_add(value), ..old(c).counts },
        ),
{
    if c.enabled {
        c.counts.ext4_create_calls = c.counts.ext4_create_calls.wrapping_add(value);
    }
}

/// Adds to `ext4_create_ticks`.
pub fn ext4_create_ticks(c: &mut Counters, value: usize)
    ensures
        *final(c) == counted(
            *old(c),
            Snapshot { ext4_create_ticks: old(c).counts.ext4_create_ticks.wrapping_add(value), ..old(c).counts },
        ),
{
    if c.enabled {
        c.counts.ext4_create_ticks = c.counts.ext4_create_ticks.wrapping_add(value);
    }
}

/// Adds to `ext4_write_calls`.
pub fn ext4_write_call(c: &mut Counters, value: usize)
    ensures
        *final(c) == counted(
            *old(c),
            Snapshot { ext4_write_calls: old(c).counts.ext4_write_calls.wrapping_add(value), ..old(c).counts },
        ),
{
    if c.enabled {
        c.counts.ext4_write_calls = c.counts.ext4_write_calls.wrapping_add(value);
    }
}

/// Adds to `ext4_write_ticks`.
pub fn ext4_write_ticks(c: &mut Counters, value: usize)
    ensures
        *final(c) == counted(
            *old(c),
            Snapshot { ext4_write_ticks: old(c).counts.ext4_write_ticks.wrapping_add(value), ..old(c).counts },
        ),
{
    if c.enabled {
        c.counts.ext4_write_ticks = c.counts.ext4_write_ticks.wrapping_add(value);
    }
}

/// Adds to `ext4_set_times_calls`.
pub fn ext4_set_times_call(c: &mut Counters, value: usize)
    ensures
        *final(c) == counted(
            *old(c),
            Snapshot { ext4_set_times_calls: old(c).counts.ext4_set_times_calls.wrapping_add(value), ..old(c).counts },
        ),
{
    if c.enabled {
        c.counts.ext4_set_times_calls = c.counts.ext4_set_times_calls.wrapping_add(value);
    }
}

/// Adds to `ext4_set_times_atime_updates`.
pub fn ext4_set_times_atime_update(c: &mut Counters, value: usize)
    ensures
        *final(c) == counted(
            *old(c),
            Snapshot { ext4_set_times_atime_updates: old(c).counts.ext4_set_times_atime_updates.wrapping_add(value), ..old(c).counts },
        ),
{
    if c.enabled {
        c.counts.ext4_set_times_atime_updates = c.counts.ext4_set_times_atime_updates.wrapping_add(value);
    }
}

/// Adds to `ext4_set_times_mtime_updates`.
pub fn ext4_set_times_mtime_update(c: &mut Counters, value: usize)
    ensures
        *final(c) == counted(
            *old(c),
            Snapshot { ext4_set_times_mtime_updates: old(c).counts.ext4_set_times_mtime_updates.wrapping_add(value), ..old(c).counts },
        ),
{
    if c.enabled {
        c.counts.ext4_set_times_mtime_updates = c.counts.ext4_set_times_mtime_updates.wrapping_add(value);
    }
}

/// Adds to `ext4_set_mode_calls`.
pub fn ext4_set_mode_call(c: &mut Counters, value: usize)
    ensures
        *final(c) == counted(
            *old(c),
            Snapshot { ext4_set_mode_calls: old(c).counts.ext4_set_mode_calls.wrapping_add(value), ..old(c).counts },
        ),
{
    if c.enabled {
        c.counts.ext4_set_mode_calls = c.counts.ext4_set_mode_calls.wrapping_add(value);
    }
}

/// Adds to `ext4_set_owner_calls`.
pub fn ext4_set_owner_call(c: &mut Counters, value: usize)
    ensures
        *final(c) == counted(
            *old(c),
            Snapshot { ext4_set_owner_calls: old(c).counts.ext4_set_owner_calls.wrapping_add(value), ..old(c).counts },
        ),
{
    if c.enabled {
        c.counts.ext4_set_owner_calls = c.counts.ext4_set_owner_calls.wrapping_add(value);
    }
}

/// Adds to `dentry_cache_hits`.
pub fn dentry_cache_hit(c: &mut Counters, value: usize)
    ensures
        *final(c) == counted(
            *old(c),
            Snapshot { dentry_cache_hits: old(c).counts.dentry_cache_hits.wrapping_add(value), ..old(c).counts },
        ),
{
    if c.enabled {
        c.counts.dentry_cache_hits = c.counts.dentry_cache_hits.wrapping_add(value);
    }
}

/// Adds to `dentry_cache_misses`.
pub fn dentry_cache_miss(c: &mut Counters, value: usize)
    ensures
        *final(c) == counted(
            *old(c),
            Snapshot { dentry_cache_misses: old(c).counts.dentry_cache_misses.wrapping_add(value), ..old(c).counts },
        ),
{
    if c.enabled {
        c.counts.dentry_cache_misses = c.counts.dentry_cache_misses.wrapping_add(value);
    }
}

/// Adds to `dentry_cache_evictions`.
pub fn dentry_cache_eviction(c: &mut Counters, value: usize)
    ensures
        *final(c) == counted(
            *old(c),
            Snapshot { dentry_cache_evictions: old(c).counts.dentry_cache_evictions.wrapping_add(value), ..old(c).counts },
        ),
{
    if c.enabled {
        c.counts.dentry_cache_evictions = c.counts.dentry_cache_evictions.wrapping_add(value);
    }
}

/// Adds to `anonymous_faults`.
pub fn anonymous_fault(c: &mut Counters, value: usize)
    ensures
        *final(c) == counted(
            *old(c),
            Snapshot { anonymous_faults: old(c).counts.anonymous_faults.wrapping_add(value), ..old(c).counts },
        ),
{
    if c.enabled {
        c.counts.anonymous_faults = c.counts.anonymous_faults.wrapping_add(value);
    }
}

/// Adds to `private_file_faults`.
pub fn private_file_fault(c: &mut Counters, value: usize)
    ensures
        *final(c) == counted(
            *old(c),
            Snapshot { private_file_faults: old(c).counts.private_file_faults.wrapping_add(value), ..old(c).counts },
        ),
{
    if c.enabled {
        c.counts.private_file_faults = c.counts.private_file_faults.wrapping_add(value);
    }
}

/// Adds to `shared_file_faults`.
pub fn shared_file_fault(c: &mut Counters, value: usize)
    ensures
        *final(c) == counted(
            *old(c),
            Snapshot { shared_file_faults: old(c).counts.shared_file_faults.wrapping_add(value), ..old(c).counts },
        ),
{
    if c.enabled {
        c.counts.shared_file_faults = c.counts.shared_file_faults.wrapping_add(value);
    }
}

/// Adds to `cow_faults`.
pub fn cow_fault(c: &mut Counters, value: usize)
    ensures
        *final(c) == counted(
            *old(c),
            Snapshot { cow_faults: old(c).counts.cow_faults.wrapping_add(value), ..old(c).counts },
        ),
{
    if c.enabled {
        c.counts.cow_faults = c.counts.cow_faults.wrapping_add(value);
    }
}

/// Adds to `context_switches`.
pub fn context_switch(c: &mut Counters, value: usize)
    ensures
        *final(c) == counted(
            *old(c),
            Snapshot { context_switches: old(c).counts.context_switches.wrapping_add(value), ..old(c).counts },
        ),
{
    if c.enabled {
        c.counts.context_switches = c.counts.context_switches.wrapping_add(value);
    }
}

/// Adds to `local_sfences`.
pub fn local_sfence(c: &mut Counters, value: usize)
    ensures
        *final(c) == counted(
            *old(c),
            Snapshot { local_sfences: old(c).counts.local_sfences.wrapping_add(value), ..old(c).counts },
        ),
{
    if c.enabled {
        c.counts.local_sfences = c.counts.local_sfences.wrapping_add(value);
    }
}

/// Adds to `local_sfence_ticks`.
pub fn local_sfence_ticks(c: &mut Counters, value: usize)
    ensures
        *final(c) == counted(
            *old(c),
            Snapshot { local_sfence_ticks: old(c).counts.local_sfence_ticks.wrapping_add(value), ..old(c).counts },
        ),
{
    if c.enabled {
        c.counts.local_sfence_ticks = c.counts.local_sfence_ticks.wrapping_add(value);
    }
}

/// Adds to `remote_rfence_empty_requests`.
pub fn remote_rfence_empty_request(c: &mut Counters, value: usize)
    ensures
        *final(c) == counted(
            *old(c),
            Snapshot { remote_rfence_empty_requests: old(c).counts.remote_rfence_empty_requests.wrapping_add(value), ..old(c).counts },
        ),
{
    if c.enabled {
        c.counts.remote_rfence_empty_requests = c.counts.remote_rfence_empty_requests.wrapping_add(value);
    }
}

/// Adds to `full_tlb_invalidations`.
pub fn full_tlb_invalidation(c: &mut Counters, value: usize)
    ensures
        *final(c) == counted(
            *old(c),
            Snapshot { full_tlb_invalidations: old(c).counts.full_tlb_invalidations.wrapping_add(value), ..old(c).counts },
        ),
{
    if c.enabled {
        c.counts.full_tlb_invalidations = c.counts.full_tlb_invalidations.wrapping_add(value);
    }
}

/// Adds to `asid_tlb_invalidations`.
pub fn asid_tlb_invalidation(c: &mut Counters, value: usize)
    ensures
        *final(c) == counted(
            *old(c),
            Snapshot { asid_tlb_invalidations: old(c).counts.asid_tlb_invalidations.wrapping_add(value), ..old(c).counts },
        ),
{
    if c.enabled {
        c.counts.asid_tlb_invalidations = c.counts.asid_tlb_invalidations.wrapping_add(value);
    }
}

/// Adds to `tlb_shootdown_all_requests`.
pub fn tlb_shootdown_all_request(c: &mut Counters, value: usize)
    ensures
        *final(c) == counted(
            *old(c),
            Snapshot { tlb_shootdown_all_requests: old(c).counts.tlb_shootdown_all_requests.wrapping_add(value), ..old(c).counts },
        ),
{
    if c.enabled {
        c.counts.tlb_shootdown_all_requests = c.counts.tlb_shootdown_all_requests.wrapping_add(value);
    }
}

/// Adds to `tlb_shootdown_address_space_requests`.
pub fn tlb_shootdown_address_space_request(c: &mut Counters, value: usize)
    ensures
        *final(c) == counted(
            *old(c),
            Snapshot { tlb_shootdown_address_space_requests: old(c).counts.tlb_shootdown_address_space_requests.wrapping_add(value), ..old(c).counts },
        ),
{
    if c.enabled {
        c.counts.tlb_shootdown_address_space_requests = c.counts.tlb_shootdown_address_space_requests.wrapping_add(value);
    }
}

/// Adds to `tlb_shootdown_range_requests`.
pub fn tlb_shootdown_range_request(c: &mut Counters, value: usize)
    ensures
        *final(c) == counted(
            *old(c),
            Snapshot { tlb_shootdown_range_requests: old(c).counts.tlb_shootdown_range_requests.wrapping_add(value), ..old(c).counts },
        ),
{
    if c.enabled {
        c.counts.tlb_shootdown_range_requests = c.counts.tlb_shootdown_range_requests.wrapping_add(value);
    }
}

/// Adds to `tlb_shootdown_range_pages`.
pub fn tlb_shootdown_range_pages(c: &mut Counters, value: usize)
    ensures
        *final(c) == counted(
            *old(c),
            Snapshot { tlb_shootdown_range_pages: old(c).counts.tlb_shootdown_range_pages.wrapping_add(value), ..old(c).counts },
        ),
{
    if c.enabled {
        c.counts.tlb_shootdown_range_pages = c.counts.tlb_shootdown_range_pages.wrapping_add(value);
    }
}

/// Adds to `tlb_shootdown_invalid_requests`.
pub fn tlb_shootdown_invalid_request(c: &mut Counters, value: usize)
    ensures
        *final(c) == counted(
            *old(c),
            Snapshot { tlb_shootdown_invalid_requests: old(c).counts.tlb_shootdown_invalid_requests.wrapping_add(value), ..old(c).counts },
        ),
{
    if c.enabled {
        c.counts.tlb_shootdown_invalid_requests = c.counts.tlb_shootdown_invalid_requests.wrapping_add(value);
    }
}

/// Adds to `tlb_flush_calls`.
pub fn tlb_flush_call(c: &mut Counters, value: usize)
    ensures
        *final(c) == counted(
            *old(c),
            Snapshot { tlb_flush_calls: old(c).counts.tlb_flush_calls.wrapping_add(value), ..old(c).counts },
        ),
{
    if c.enabled {
        c.counts.tlb_flush_calls = c.counts.tlb_flush_calls.wrapping_add(value);
    }
}

/// Adds to `tlb_fresh_map_flushes`.
pub fn tlb_fresh_map_flush(c: &mut Counters, value: usize)
    ensures
        *final(c) == counted(
            *old(c),
            Snapshot { tlb_fresh_map_flushes: old(c).counts.tlb_fresh_map_flushes.wrapping_add(value), ..old(c).counts },
        ),
{
    if c.enabled {
        c.counts.tlb_fresh_map_flushes = c.counts.tlb_fresh_map_flushes.wrapping_add(value);
    }
}

/// Adds to `tlb_cow_flushes`.
pub fn tlb_cow_flush(c: &mut Counters, value: usize)
    ensures
        *final(c) == counted(
            *old(c),
            Snapshot { tlb_cow_flushes: old(c).counts.tlb_cow_flushes.wrapping_add(value), ..old(c).counts },
        ),
{
    if c.enabled {
        c.counts.tlb_cow_flushes = c.counts.tlb_cow_flushes.wrapping_add(value);
    }
}

/// Adds to `tlb_flush_retired_batches`.
pub fn tlb_flush_retired_batch(c: &mut Counters, value: usize)
    ensures
        *final(c) == counted(
            *old(c),
            Snapshot { tlb_flush_retired_batches: old(c).counts.tlb_flush_retired_batches.wrapping_add(value), ..old(c).counts },
        ),
{
    if c.enabled {
        c.counts.tlb_flush_retired_batches = c.counts.tlb_flush_retired_batches.wrapping_add(value);
    }
}

/// Adds to `tlb_flush_retired_frames`.
pub fn tlb_flush_retired_frames(c: &mut Counters, value: usize)
    ensures
        *final(c) == counted(
            *old(c),
            Snapshot { tlb_flush_retired_frames: old(c).counts.tlb_flush_retired_frames.wrapping_add(value), ..old(c).counts },
        ),
{
    if c.enabled {
        c.counts.tlb_flush_retired_frames = c.counts.tlb_flush_retired_frames.wrapping_add(value);
    }
}

/// Adds to `scheduler_ipis`.
pub fn scheduler_ipi(c: &mut Counters, value: usize)
    ensures
        *final(c) == counted(
            *old(c),
            Snapshot { scheduler_ipis: old(c).counts.scheduler_ipis.wrapping_add(value), ..old(c).counts },
        ),
{
    if c.enabled {
        c.counts.scheduler_ipis = c.counts.scheduler_ipis.wrapping_add(value);
    }
}

/// Adds to `ipis_received`.
pub fn ipi_received(c: &mut Counters, value: usize)
    ensures
        *final(c) == counted(
            *old(c),
            Snapshot { ipis_received: old(c).counts.ipis_received.wrapping_add(value), ..old(c).counts },
        ),
{
    if c.enabled {
        c.counts.ipis_received = c.counts.ipis_received.wrapping_add(value);
    }
}

/// Adds to `scheduler_lock_acquisitions`.
pub fn scheduler_lock_acquisition(c: &mut Counters, value: usize)
    ensures
        *final(c) == counted(
            *old(c),
            Snapshot { scheduler_lock_acquisitions: old(c).counts.scheduler_lock_acquisitions.wrapping_add(value), ..old(c).counts },
        ),
{
    if c.enabled {
        c.counts.scheduler_lock_acquisitions = c.counts.scheduler_lock_acquisitions.wrapping_add(value);
    }
}

/// Adds to `scheduler_lock_wait_ticks`.
pub fn scheduler_lock_wait_ticks(c: &mut Counters, value: usize)
    ensures
        *final(c) == counted(
            *old(c),
            Snapshot { scheduler_lock_wait_ticks: old(c).counts.scheduler_lock_wait_ticks.wrapping_add(value), ..old(c).counts },
        ),
{
    if c.enabled {
        c.counts.scheduler_lock_wait_ticks = c.counts.scheduler_lock_wait_ticks.wrapping_add(value);
    }
}

/// Adds to `scheduler_yields`.
pub fn scheduler_yield(c: &mut Counters, value: usize)
    ensures
        *final(c) == counted(
            *old(c),
            Snapshot { scheduler_yields: old(c).counts.scheduler_yields.wrapping_add(value), ..old(c).counts },
        ),
{
    if c.enabled {
        c.counts.scheduler_yields = c.counts.scheduler_yields.wrapping_add(value);
    }
}

/// Adds to `syscall_yields`.
pub fn syscall_yield(c: &mut Counters, value: usize)
    ensures
        *final(c) == counted(
            *old(c),
            Snapshot { syscall_yields: old(c).counts.syscall_yields.wrapping_add(value), ..old(c).counts },
        ),
{
    if c.enabled {
        c.counts.syscall_yields = c.counts.syscall_yields.wrapping_add(value);
    }
}

/// Adds to `quiescence_yields`.
pub fn quiescence_yield(c: &mut Counters, value: usize)
    ensures
        *final(c) == counted(
            *old(c),
            Snapshot { quiescence_yields: old(c).counts.quiescence_yields.wrapping_add(value), ..old(c).counts },
        ),
{
    if c.enabled {
        c.counts.quiescence_yields = c.counts.quiescence_yields.wrapping_add(value);
    }
}

/// Adds to `fs_yields`.
pub fn fs_yield(c: &mut Counters, value: usize)
    ensures
        *final(c) == counted(
            *old(c),
            Snapshot { fs_yields: old(c).counts.fs_yields.wrapping_add(value), ..old(c).counts },
        ),
{
    if c.enabled {
        c.counts.fs_yields = c.counts.fs_yields.wrapping_add(value);
    }
}

/// Adds to `stdio_yields`.
pub fn stdio_yield(c: &mut Counters, value: usize)
    ensures
        *final(c) == counted(
            *old(c),
            Snapshot { stdio_yields: old(c).counts.stdio_yields.wrapping_add(value), ..old(c).counts },
        ),
{
    if c.enabled {
        c.counts.stdio_yields = c.counts.stdio_yields.wrapping_add(value);
    }
}

/// Adds to `tty_yields`.
pub fn tty_yield(c: &mut Counters, value: usize)
    ensures
        *final(c) == counted(
            *old(c),
            Snapshot { tty_yields: old(c).counts.tty_yields.wrapping_add(value), ..old(c).counts },
        ),
{
    if c.enabled {
        c.counts.tty_yields = c.counts.tty_yields.wrapping_add(value);
    }
}

/// Adds to `pipe_yields`.
pub fn pipe_yield(c: &mut Counters, value: usize)
    ensures
        *final(c) == counted(
            *old(c),
            Snapshot { pipe_yields: old(c).counts.pipe_yields.wrapping_add(value), ..old(c).counts },
        ),
{
    if c.enabled {
        c.counts.pipe_yields = c.counts.pipe_yields.wrapping_add(value);
    }
}

/// Adds to `fs_syscall_yields`.
pub fn fs_syscall_yield(c: &mut Counters, value: usize)
    ensures
        *final(c) == counted(
            *old(c),
            Snapshot { fs_syscall_yields: old(c).counts.fs_syscall_yields.wrapping_add(value), ..old(c).counts },
        ),
{
    if c.enabled {
        c.counts.fs_syscall_yields = c.counts.fs_syscall_yields.wrapping_add(value);
    }
}

/// Adds to `futex_yields`.
pub fn futex_yield(c: &mut Counters, value: usize)
    ensures
        *final(c) == counted(
            *old(c),
            Snapshot { futex_yields: old(c).counts.futex_yields.wrapping_add(value), ..old(c).counts },
        ),
{
    if c.enabled {
        c.counts.futex_yields = c.counts.futex_yields.wrapping_add(value);
    }
}

/// Adds to `net_yields`.
pub fn net_yield(c: &mut Counters, value: usize)
    ensures
        *final(c) == counted(
            *old(c),
            Snapshot { net_yields: old(c).counts.net_yields.wrapping_add(value), ..old(c).counts },
        ),
{
    if c.enabled {
        c.counts.net_yields = c.counts.net_yields.wrapping_add(value);
    }
}

/// Adds to `unix_socket_yields`.
pub fn unix_socket_yield(c: &mut Counters, value: usize)
    ensures
        *final(c) == counted(
            *old(c),
            Snapshot { unix_socket_yields: old(c).counts.unix_socket_yields.wrapping_add(value), ..old(c).counts },
        ),
{
    if c.enabled {
        c.counts.unix_socket_yields = c.counts.unix_socket_yields.wrapping_add(value);
    }
}

/// Adds to `tcp_wait_yields`.
pub fn tcp_wait_yield(c: &mut Counters, value: usize)
    ensures
        *final(c) == counted(
            *old(c),
            Snapshot { tcp_wait_yields: old(c).counts.tcp_wait_yields.wrapping_add(value), ..old(c).counts },
        ),
{
    if c.enabled {
        c.counts.tcp_wait_yields = c.counts.tcp_wait_yields.wrapping_add(value);
    }
}

/// Adds to `tcp_connect_yields`.
pub fn tcp_connect_yield(c: &mut Counters, value: usize)
    ensures
        *final(c) == counted(
            *old(c),
            Snapshot { tcp_connect_yields: old(c).counts.tcp_connect_yields.wrapping_add(value), ..old(c).counts },
        ),
{
    if c.enabled {
        c.counts.tcp_connect_yields = c.counts.tcp_connect_yields.wrapping_add(value);
    }
}

/// Adds to `udp_wait_yields`.
pub fn udp_wait_yield(c: &mut Counters, value: usize)
    ensures
        *final(c) == counted(
            *old(c),
            Snapshot { udp_wait_yields: old(c).counts.udp_wait_yields.wrapping_add(value), ..old(c).counts },
        ),
{
    if c.enabled {
        c.counts.udp_wait_yields = c.counts.udp_wait_yields.wrapping_add(value);
    }
}

/// Adds to `process_yields`.
pub fn process_yield(c: &mut Counters, value: usize)
    ensures
        *final(c) == counted(
            *old(c),
            Snapshot { process_yields: old(c).counts.process_yields.wrapping_add(value), ..old(c).counts },
        ),
{
    if c.enabled {
        c.counts.process_yields = c.counts.process_yields.wrapping_add(value);
    }
}

/// Adds to `signal_time_yields`.
pub fn signal_time_yield(c: &mut Counters, value: usize)
    ensures
        *final(c) == counted(
            *old(c),
            Snapshot { signal_time_yields: old(c).counts.signal_time_yields.wrapping_add(value), ..old(c).counts },
        ),
{
    if c.enabled {
        c.counts.signal_time_yields = c.counts.signal_time_yields.wrapping_add(value);
    }
}

/// Adds to `special_fd_yields`.
pub fn special_fd_yield(c: &mut Counters, value: usize)
    ensures
        *final(c) == counted(
            *old(c),
            Snapshot { special_fd_yields: old(c).counts.special_fd_yields.wrapping_add(value), ..old(c).counts },
        ),
{
    if c.enabled {
        c.counts.special_fd_yields = c.counts.special_fd_yields.wrapping_add(value);
    }
}

/// Adds to `timer_preemptions`.
pub fn timer_preemption(c: &mut Counters, value: usize)
    ensures
        *final(c) == counted(
            *old(c),
            Snapshot { timer_preemptions: old(c).counts.timer_preemptions.wrapping_add(value), ..old(c).counts },
        ),
{
    if c.enabled {
        c.counts.timer_preemptions = c.counts.timer_preemptions.wrapping_add(value);
    }
}

/// Adds to `blocking_switches`.
pub fn blocking_switch(c: &mut Counters, value: usize)
    ensures
        *final(c) == counted(
            *old(c),
            Snapshot { blocking_switches: old(c).counts.blocking_switches.wrapping_add(value), ..old(c).counts },
        ),
{
    if c.enabled {
        c.counts.blocking_switches = c.counts.blocking_switches.wrapping_add(value);
    }
}

/// Adds to `task_running_ticks`.
pub fn task_running_ticks(c: &mut Counters, value: usize)
    ensures
        *final(c) == counted(
            *old(c),
            Snapshot { task_running_ticks: old(c).counts.task_running_ticks.wrapping_add(value), ..old(c).counts },
        ),
{
    if c.enabled {
        c.counts.task_running_ticks = c.counts.task_running_ticks.wrapping_add(value);
    }
}

/// Adds to `idle_ticks`.
pub fn idle_ticks(c: &mut Counters, value: usize)
    ensures
        *final(c) == counted(
            *old(c),
            Snapshot { idle_ticks: old(c).counts.idle_ticks.wrapping_add(value), ..old(c).counts },
        ),
{
    if c.enabled {
        c.counts.idle_ticks = c.counts.idle_ticks.wrapping_add(value);
    }
}

/// Adds to `user_traps`.
pub fn user_trap(c: &mut Counters, value: usize)
    ensures
        *final(c) == counted(
            *old(c),
            Snapshot { user_traps: old(c).counts.user_traps.wrapping_add(value), ..old(c).counts },
        ),
{
    if c.enabled {
        c.counts.user_traps = c.counts.user_traps.wrapping_add(value);
    }
}

/// Adds to `user_syscall_traps`.
pub fn user_syscall_trap(c: &mut Counters, value: usize)
    ensures
        *final(c) == counted(
            *old(c),
            Snapshot { user_syscall_traps: old(c).counts.user_syscall_traps.wrapping_add(value), ..old(c).counts },
        ),
{
    if c.enabled {
        c.counts.user_syscall_traps = c.counts.user_syscall_traps.wrapping_add(value);
    }
}

/// Adds to `user_page_fault_traps`.
pub fn user_page_fault_trap(c: &mut Counters, value: usize)
    ensures
        *final(c) == counted(
            *old(c),
            Snapshot { user_page_fault_traps: old(c).counts.user_page_fault_traps.wrapping_add(value), ..old(c).counts },
        ),
{
    if c.enabled {
        c.counts.user_page_fault_traps = c.counts.user_page_fault_traps.wrapping_add(value);
    }
}

/// Adds to `user_timer_traps`.
pub fn user_timer_trap(c: &mut Counters, value: usize)
    ensures
        *final(c) == counted(
            *old(c),
            Snapshot { user_timer_traps: old(c).counts.user_timer_traps.wrapping_add(value), ..old(c).counts },
        ),
{
    if c.enabled {
        c.counts.user_timer_traps = c.counts.user_timer_traps.wrapping_add(value);
    }
}

/// Adds to `user_ipi_traps`.
pub fn user_ipi_trap(c: &mut Counters, value: usize)
    ensures
        *final(c) == counted(
            *old(c),
            Snapshot { user_ipi_traps: old(c).counts.user_ipi_traps.wrapping_add(value), ..old(c).counts },
        ),
{
    if c.enabled {
        c.counts.user_ipi_traps = c.counts.user_ipi_traps.wrapping_add(value);
    }
}

/// Adds to `extension_state_eager_saves`.
pub fn extension_state_eager_save(c: &mut Counters, value: usize)
    ensures
        *final(c) == counted(
            *old(c),
            Snapshot { extension_state_eager_saves: old(c).counts.extension_state_eager_saves.wrapping_add(value), ..old(c).counts },
        ),
{
    if c.enabled {
        c.counts.extension_state_eager_saves = c.counts.extension_state_eager_saves.wrapping_add(value);
    }
}

/// Adds to `ext4_lock_acquisitions`.
pub fn ext4_lock_acquisition(c: &mut Counters, value: usize)
    ensures
        *final(c) == counted(
            *old(c),
            Snapshot { ext4_lock_acquisitions: old(c).counts.ext4_lock_acquisitions.wrapping_add(value), ..old(c).counts },
        ),
{
    if c.enabled {
        c.counts.ext4_lock_acquisitions = c.counts.ext4_lock_acquisitions.wrapping_add(value);
    }
}

/// Adds to `ext4_lock_wait_ticks`.
pub fn ext4_lock_wait_ticks(c: &mut Counters, value: usize)
    ensures
        *final(c) == counted(
            *old(c),
            Snapshot { ext4_lock_wait_ticks: old(c).counts.ext4_lock_wait_ticks.wrapping_add(value), ..old(c).counts },
        ),
{
    if c.enabled {
        c.counts.ext4_lock_wait_ticks = c.counts.ext4_lock_wait_ticks.wrapping_add(value);
    }
}

/// Adds to `ext4_lock_hold_ticks`.
pub fn ext4_lock_hold_ticks(c: &mut Counters, value: usize)
    ensures
        *final(c) == counted(
            *old(c),
            Snapshot { ext4_lock_hold_ticks: old(c).counts.ext4_lock_hold_ticks.wrapping_add(value), ..old(c).counts },
        ),
{
    if c.enabled {
        c.counts.ext4_lock_hold_ticks = c.counts.ext4_lock_hold_ticks.wrapping_add(value);
    }
}

/// Adds to `ext4_lock_stat_acquisitions`.
pub fn ext4_lock_stat_acquisition(c: &mut Counters, value: usize)
    ensures
        *final(c) == counted(
            *old(c),
            Snapshot { ext4_lock_stat_acquisitions: old(c).counts.ext4_lock_stat_acquisitions.wrapping_add(value), ..old(c).counts },
        ),
{
    if c.enabled {
        c.counts.ext4_lock_stat_acquisitions = c.counts.ext4_lock_stat_acquisitions.wrapping_add(value);
    }
}

/// Adds to `ext4_lock_stat_wait_ticks`.
pub fn ext4_lock_stat_wait_ticks(c: &mut Counters, value: usize)
    ensures
        *final(c) == counted(
            *old(c),
            Snapshot { ext4_lock_stat_wait_ticks: old(c).counts.ext4_lock_stat_wait_ticks.wrapping_add(value), ..old(c).counts },
        ),
{
    if c.enabled {
        c.counts.ext4_lock_stat_wait_ticks = c.counts.ext4_lock_stat_wait_ticks.wrapping_add(value);
    }
}

/// Adds to `ext4_lock_stat_hold_ticks`.
pub fn ext4_lock_stat_hold_ticks(c: &mut Counters, value: usize)
    ensures
        *final(c) == counted(
            *old(c),
            Snapshot { ext4_lock_stat_hold_ticks: old(c).counts.ext4_lock_stat_hold_ticks.wrapping_add(value), ..old(c).counts },
        ),
{
    if c.enabled {
        c.counts.ext4_lock_stat_hold_ticks = c.counts.ext4_lock_stat_hold_ticks.wrapping_add(value);
    }
}

/// Adds to `ext4_lock_lookup_acquisitions`.
pub fn ext4_lock_lookup_acquisition(c: &mut Counters, value: usize)
    ensures
        *final(c) == counted(
            *old(c),
            Snapshot { ext4_lock_lookup_acquisitions: old(c).counts.ext4_lock_lookup_acquisitions.wrapping_add(value), ..old(c).counts },
        ),
{
    if c.enabled {
        c.counts.ext4_lock_lookup_acquisitions = c.counts.ext4_lock_lookup_acquisitions.wrapping_add(value);
    }
}

/// Adds to `ext4_lock_lookup_wait_ticks`.
pub fn ext4_lock_lookup_wait_ticks(c: &mut Counters, value: usize)
    ensures
        *final(c) == counted(
            *old(c),
            Snapshot { ext4_lock_lookup_wait_ticks: old(c).counts.ext4_lock_lookup_wait_ticks.wrapping_add(value), ..old(c).counts },
        ),
{
    if c.enabled {
        c.counts.ext4_lock_lookup_wait_ticks = c.counts.ext4_lock_lookup_wait_ticks.wrapping_add(value);
    }
}

/// Adds to `ext4_lock_lookup_hold_ticks`.
pub fn ext4_lock_lookup_hold_ticks(c: &mut Counters, value: usize)
    ensures
        *final(c) == counted(
            *old(c),
            Snapshot { ext4_lock_lookup_hold_ticks: old(c).counts.ext4_lock_lookup_hold_ticks.wrapping_add(value), ..old(c).counts },
        ),
{
    if c.enabled {
        c.counts.ext4_lock_lookup_hold_ticks = c.counts.ext4_lock_lookup_hold_ticks.wrapping_add(value);
    }
}

/// Adds to `ext4_lock_read_acquisitions`.
pub fn ext4_lock_read_acquisition(c: &mut Counters, value: usize)
    ensures
        *final(c) == counted(
            *old(c),
            Snapshot { ext4_lock_read_acquisitions: old(c).counts.ext4_lock_read_acquisitions.wrapping_add(value), ..old(c).counts },
        ),
{
    if c.enabled {
        c.counts.ext4_lock_read_acquisitions = c.counts.ext4_lock_read_acquisitions.wrapping_add(value);
    }
}

/// Adds to `ext4_lock_read_wait_ticks`.
pub fn ext4_lock_read_wait_ticks(c: &mut Counters, value: usize)
    ensures
        *final(c) == counted(
            *old(c),
            Snapshot { ext4_lock_read_wait_ticks: old(c).counts.ext4_lock_read_wait_ticks.wrapping_add(value), ..old(c).counts },
        ),
{
    if c.enabled {
        c.counts.ext4_lock_read_wait_ticks = c.counts.ext4_lock_read_wait_ticks.wrapping_add(value);
    }
}

/// Adds to `ext4_lock_read_hold_ticks`.
pub fn ext4_lock_read_hold_ticks(c: &mut Counters, value: usize)
    ensures
        *final(c) == counted(
            *old(c),
            Snapshot { ext4_lock_read_hold_ticks: old(c).counts.ext4_lock_read_hold_ticks.wrapping_add(value), ..old(c).counts },
        ),
{
    if c.enabled {
        c.counts.ext4_lock_read_hold_ticks = c.counts.ext4_lock_read_hold_ticks.wrapping_add(value);
    }
}

/// Adds to `ext4_lock_write_acquisitions`.
pub fn ext4_lock_write_acquisition(c: &mut Counters, value: usize)
    ensures
        *final(c) == counted(
            *old(c),
            Snapshot { ext4_lock_write_acquisitions: old(c).counts.ext4_lock_write_acquisitions.wrapping_add(value), ..old(c).counts },
        ),
{
    if c.enabled {
        c.counts.ext4_lock_write_acquisitions = c.counts.ext4_lock_write_acquisitions.wrapping_add(value);
    }
}

/// Adds to `ext4_lock_write_wait_ticks`.
pub fn ext4_lock_write_wait_ticks(c: &mut Counters, value: usize)
    ensures
        *final(c) == counted(
            *old(c),
            Snapshot { ext4_lock_write_wait_ticks: old(c).counts.ext4_lock_write_wait_ticks.wrapping_add(value), ..old(c).counts },
        ),
{
    if c.enabled {
        c.counts.ext4_lock_write_wait_ticks = c.counts.ext4_lock_write_wait_ticks.wrapping_add(value);
    }
}

/// Adds to `ext4_lock_write_hold_ticks`.
pub fn ext4_lock_write_hold_ticks(c: &mut Counters, value: usize)
    ensures
        *final(c) == counted(
            *old(c),
            Snapshot { ext4_lock_write_hold_ticks: old(c).counts.ext4_lock_write_hold_ticks.wrapping_add(value), ..old(c).counts },
        ),
{
    if c.enabled {
        c.counts.ext4_lock_write_hold_ticks = c.counts.ext4_lock_write_hold_ticks.wrapping_add(value);
    }
}

/// Adds to `ext4_lock_readdir_acquisitions`.
pub fn ext4_lock_readdir_acquisition(c: &mut Counters, value: usize)
    ensures
        *final(c) == counted(
            *old(c),
            Snapshot { ext4_lock_readdir_acquisitions: old(c).counts.ext4_lock_readdir_acquisitions.wrapping_add(value), ..old(c).counts },
        ),
{
    if c.enabled {
        c.counts.ext4_lock_readdir_acquisitions = c.counts.ext4_lock_readdir_acquisitions.wrapping_add(value);
    }
}

/// Adds to `ext4_lock_readdir_wait_ticks`.
pub fn ext4_lock_readdir_wait_ticks(c: &mut Counters, value: usize)
    ensures
        *final(c) == counted(
            *old(c),
            Snapshot { ext4_lock_readdir_wait_ticks: old(c).counts.ext4_lock_readdir_wait_ticks.wrapping_add(value), ..old(c).counts },
        ),
{
    if c.enabled {
        c.counts.ext4_lock_readdir_wait_ticks = c.counts.ext4_lock_readdir_wait_ticks.wrapping_add(value);
    }
}

/// Adds to `ext4_lock_readdir_hold_ticks`.
pub fn ext4_lock_readdir_hold_ticks(c: &mut Counters, value: usize)
    ensures
        *final(c) == counted(
            *old(c),
            Snapshot { ext4_lock_readdir_hold_ticks: old(c).counts.ext4_lock_readdir_hold_ticks.wrapping_add(value), ..old(c).counts },
        ),
{
    if c.enabled {
        c.counts.ext4_lock_readdir_hold_ticks = c.counts.ext4_lock_readdir_hold_ticks.wrapping_add(value);
    }
}

/// Adds to `ext4_lock_namespace_acquisitions`.
pub fn ext4_lock_namespace_acquisition(c: &mut Counters, value: usize)
    ensures
        *final(c) == counted(
            *old(c),
            Snapshot { ext4_lock_namespace_acquisitions: old(c).counts.ext4_lock_namespace_acquisitions.wrapping_add(value), ..old(c).counts },
        ),
{
    if c.enabled {
        c.counts.ext4_lock_namespace_acquisitions = c.counts.ext4_lock_namespace_acquisitions.wrapping_add(value);
    }
}

/// Adds to `ext4_lock_namespace_wait_ticks`.
pub fn ext4_lock_namespace_wait_ticks(c: &mut Counters, value: usize)
    ensures
        *final(c) == counted(
            *old(c),
            Snapshot { ext4_lock_namespace_wait_ticks: old(c).counts.ext4_lock_namespace_wait_ticks.wrapping_add(value), ..old(c).counts },
        ),
{
    if c.enabled {
        c.counts.ext4_lock_namespace_wait_ticks = c.counts.ext4_lock_namespace_wait_ticks.wrapping_add(value);
    }
}

/// Adds to `ext4_lock_namespace_hold_ticks`.
pub fn ext4_lock_namespace_hold_ticks(c: &mut Counters, value: usize)
    ensures
        *final(c) == counted(
            *old(c),
            Snapshot { ext4_lock_namespace_hold_ticks: old(c).counts.ext4_lock_namespace_hold_ticks.wrapping_add(value), ..old(c).counts },
        ),
{
    if c.enabled {
        c.counts.ext4_lock_namespace_hold_ticks = c.counts.ext4_lock_namespace_hold_ticks.wrapping_add(value);
    }
}

/// Adds to `ext4_lock_attributes_acquisitions`.
pub fn ext4_lock_attributes_acquisition(c: &mut Counters, value: usize)
    ensures
        *final(c) == counted(
            *old(c),
            Snapshot { ext4_lock_attributes_acquisitions: old(c).counts.ext4_lock_attributes_acquisitions.wrapping_add(value), ..old(c).counts },
        ),
{
    if c.enabled {
        c.counts.ext4_lock_attributes_acquisitions = c.counts.ext4_lock_attributes_acquisitions.wrapping_add(value);
    }
}

/// Adds to `ext4_lock_attributes_wait_ticks`.
pub fn ext4_lock_attributes_wait_ticks(c: &mut Counters, value: usize)
    ensures
        *final(c) == counted(
            *old(c),
            Snapshot { ext4_lock_attributes_wait_ticks: old(c).counts.ext4_lock_attributes_wait_ticks.wrapping_add(value), ..old(c).counts },
        ),
{
    if c.enabled {
        c.counts.ext4_lock_attributes_wait_ticks = c.counts.ext4_lock_attributes_wait_ticks.wrapping_add(value);
    }
}

/// Adds to `ext4_lock_attributes_hold_ticks`.
pub fn ext4_lock_attributes_hold_ticks(c: &mut Counters, value: usize)
    ensures
        *final(c) == counted(
            *old(c),
            Snapshot { ext4_lock_attributes_hold_ticks: old(c).counts.ext4_lock_attributes_hold_ticks.wrapping_add(value), ..old(c).counts },
        ),
{
    if c.enabled {
        c.counts.ext4_lock_attributes_hold_ticks = c.counts.ext4_lock_attributes_hold_ticks.wrapping_add(value);
    }
}

/// Adds to `ext4_lock_superblock_acquisitions`.
pub fn ext4_lock_superblock_acquisition(c: &mut Counters, value: usize)
    ensures
        *final(c) == counted(
            *old(c),
            Snapshot { ext4_lock_superblock_acquisitions: old(c).counts.ext4_lock_superblock_acquisitions.wrapping_add(value), ..old(c).counts },
        ),
{
    if c.enabled {
        c.counts.ext4_lock_superblock_acquisitions = c.counts.ext4_lock_superblock_acquisitions.wrapping_add(value);
    }
}

/// Adds to `ext4_lock_superblock_wait_ticks`.
pub fn ext4_lock_superblock_wait_ticks(c: &mut Counters, value: usize)
    ensures
        *final(c) == counted(
            *old(c),
            Snapshot { ext4_lock_superblock_wait_ticks: old(c).counts.ext4_lock_superblock_wait_ticks.wrapping_add(value), ..old(c).counts },
        ),
{
    if c.enabled {
        c.counts.ext4_lock_superblock_wait_ticks = c.counts.ext4_lock_superblock_wait_ticks.wrapping_add(value);
    }
}

/// Adds to `ext4_lock_superblock_hold_ticks`.
pub fn ext4_lock_superblock_hold_ticks(c: &mut Counters, value: usize)
    ensures
        *final(c) == counted(
            *old(c),
            Snapshot { ext4_lock_superblock_hold_ticks: old(c).counts.ext4_lock_superblock_hold_ticks.wrapping_add(value), ..old(c).counts },
        ),
{
    if c.enabled {
        c.counts.ext4_lock_superblock_hold_ticks = c.counts.ext4_lock_superblock_hold_ticks.wrapping_add(value);
    }
}

/// Adds to `ext4_lower_calls`.
pub fn ext4_lower_call(c: &mut Counters, value: usize)
    ensures
        *final(c) == counted(
            *old(c),
            Snapshot { ext4_lower_calls: old(c).counts.ext4_lower_calls.wrapping_add(value), ..old(c).counts },
        ),
{
    if c.enabled {
        c.counts.ext4_lower_calls = c.counts.ext4_lower_calls.wrapping_add(value);
    }
}

/// Adds to `ext4_lower_ticks`.
pub fn ext4_lower_ticks(c: &mut Counters, value: usize)
    ensures
        *final(c) == counted(
            *old(c),
            Snapshot { ext4_lower_ticks: old(c).counts.ext4_lower_ticks.wrapping_add(value), ..old(c).counts },
        ),
{
    if c.enabled {
        c.counts.ext4_lower_ticks = c.counts.ext4_lower_ticks.wrapping_add(value);
    }
}

/// Adds to `ext4_lower_stat_calls`.
pub fn ext4_lower_stat_call(c: &mut Counters, value: usize)
    ensures
        *final(c) == counted(
            *old(c),
            Snapshot { ext4_lower_stat_calls: old(c).counts.ext4_lower_stat_calls.wrapping_add(value), ..old(c).counts },
        ),
{
    if c.enabled {
        c.counts.ext4_lower_stat_calls = c.counts.ext4_lower_stat_calls.wrapping_add(value);
    }
}

/// Adds to `ext4_lower_stat_ticks`.
pub fn ext4_lower_stat_ticks(c: &mut Counters, value: usize)
    ensures
        *final(c) == counted(
            *old(c),
            Snapshot { ext4_lower_stat_ticks: old(c).counts.ext4_lower_stat_ticks.wrapping_add(value), ..old(c).counts },
        ),
{
    if c.enabled {
        c.counts.ext4_lower_stat_ticks = c.counts.ext4_lower_stat_ticks.wrapping_add(value);
    }
}

/// Adds to `ext4_lower_lookup_calls`.
pub fn ext4_lower_lookup_call(c: &mut Counters, value: usize)
    ensures
        *final(c) == counted(
            *old(c),
            Snapshot { ext4_lower_lookup_calls: old(c).counts.ext4_lower_lookup_calls.wrapping_add(value), ..old(c).counts },
        ),
{
    if c.enabled {
        c.counts.ext4_lower_lookup_calls = c.counts.ext4_lower_lookup_calls.wrapping_add(value);
    }
}

/// Adds to `ext4_lower_lookup_ticks`.
pub fn ext4_lower_lookup_ticks(c: &mut Counters, value: usize)
    ensures
        *final(c) == counted(
            *old(c),
            Snapshot { ext4_lower_lookup_ticks: old(c).counts.ext4_lower_lookup_ticks.wrapping_add(value), ..old(c).counts },
        ),
{
    if c.enabled {
        c.counts.ext4_lower_lookup_ticks = c.counts.ext4_lower_lookup_ticks.wrapping_add(value);
    }
}

/// Adds to `ext4_lower_read_calls`.
pub fn ext4_lower_read_call(c: &mut Counters, value: usize)
    ensures
        *final(c) == counted(
            *old(c),
            Snapshot { ext4_lower_read_calls: old(c).counts.ext4_lower_read_calls.wrapping_add(value), ..old(c).counts },
        ),
{
    if c.enabled {
        c.counts.ext4_lower_read_calls = c.counts.ext4_lower_read_calls.wrapping_add(value);
    }
}

/// Adds to `ext4_lower_read_ticks`.
pub fn ext4_lower_read_ticks(c: &mut Counters, value: usize)
    ensures
        *final(c) == counted(
            *old(c),
            Snapshot { ext4_lower_read_ticks: old(c).counts.ext4_lower_read_ticks.wrapping_add(value), ..old(c).counts },
        ),
{
    if c.enabled {
        c.counts.ext4_lower_read_ticks = c.counts.ext4_lower_read_ticks.wrapping_add(value);
    }
}

/// Adds to `ext4_lower_write_calls`.
pub fn ext4_lower_write_call(c: &mut Counters, value: usize)
    ensures
        *final(c) == counted(
            *old(c),
            Snapshot { ext4_lower_write_calls: old(c).counts.ext4_lower_write_calls.wrapping_add(value), ..old(c).counts },
        ),
{
    if c.enabled {
        c.counts.ext4_lower_write_calls = c.counts.ext4_lower_write_calls.wrapping_add(value);
    }
}

/// Adds to `ext4_lower_write_ticks`.
pub fn ext4_lower_write_ticks(c: &mut Counters, value: usize)
    ensures
        *final(c) == counted(
            *old(c),
            Snapshot { ext4_lower_write_ticks: old(c).counts.ext4_lower_write_ticks.wrapping_add(value), ..old(c).counts },
        ),
{
    if c.enabled {
        c.counts.ext4_lower_write_ticks = c.counts.ext4_lower_write_ticks.wrapping_add(value);
    }
}

/// Adds to `ext4_lower_readdir_calls`.
pub fn ext4_lower_readdir_call(c: &mut Counters, value: usize)
    ensures
        *final(c) == counted(
            *old(c),
            Snapshot { ext4_lower_readdir_calls: old(c).counts.ext4_lower_readdir_calls.wrapping_add(value), ..old(c).counts },
        ),
{
    if c.enabled {
        c.counts.ext4_lower_readdir_calls = c.counts.ext4_lower_readdir_calls.wrapping_add(value);
    }
}

/// Adds to `ext4_lower_readdir_ticks`.
pub fn ext4_lower_readdir_ticks(c: &mut Counters, value: usize)
    ensures
        *final(c) == counted(
            *old(c),
            Snapshot { ext4_lower_readdir_ticks: old(c).counts.ext4_lower_readdir_ticks.wrapping_add(value), ..old(c).counts },
        ),
{
    if c.enabled {
        c.counts.ext4_lower_readdir_ticks = c.counts.ext4_lower_readdir_ticks.wrapping_add(value);
    }
}

/// Adds to `ext4_lower_namespace_calls`.
pub fn ext4_lower_namespace_call(c: &mut Counters, value: usize)
    ensures
        *final(c) == counted(
            *old(c),
            Snapshot { ext4_lower_namespace_calls: old(c).counts.ext4_lower_namespace_calls.wrapping_add(value), ..old(c).counts },
        ),
{
    if c.enabled {
        c.counts.ext4_lower_namespace_calls = c.counts.ext4_lower_namespace_calls.wrapping_add(value);
    }
}

/// Adds to `ext4_lower_namespace_ticks`.
pub fn ext4_lower_namespace_ticks(c: &mut Counters, value: usize)
    ensures
        *final(c) == counted(
            *old(c),
            Snapshot { ext4_lower_namespace_ticks: old(c).counts.ext4_lower_namespace_ticks.wrapping_add(value), ..old(c).counts },
        ),
{
    if c.enabled {
        c.counts.ext4_lower_namespace_ticks = c.counts.ext4_lower_namespace_ticks.wrapping_add(value);
    }
}

/// Adds to `ext4_lower_attributes_calls`.
pub fn ext4_lower_attributes_call(c: &mut Counters, value: usize)
    ensures
        *final(c) == counted(
            *old(c),
            Snapshot { ext4_lower_attributes_calls: old(c).counts.ext4_lower_attributes_calls.wrapping_add(value), ..old(c).counts },
        ),
{
    if c.enabled {
        c.counts.ext4_lower_attributes_calls = c.counts.ext4_lower_attributes_calls.wrapping_add(value);
    }
}

/// Adds to `ext4_lower_attributes_ticks`.
pub fn ext4_lower_attributes_ticks(c: &mut Counters, value: usize)
    ensures
        *final(c) == counted(
            *old(c),
            Snapshot { ext4_lower_attributes_ticks: old(c).counts.ext4_lower_attributes_ticks.wrapping_add(value), ..old(c).counts },
        ),
{
    if c.enabled {
        c.counts.ext4_lower_attributes_ticks = c.counts.ext4_lower_attributes_ticks.wrapping_add(value);
    }
}

/// Adds to `ext4_lower_superblock_calls`.
pub fn ext4_lower_superblock_call(c: &mut Counters, value: usize)
    ensures
        *final(c) == counted(
            *old(c),
            Snapshot { ext4_lower_superblock_calls: old(c).counts.ext4_lower_superblock_calls.wrapping_add(value), ..old(c).counts },
        ),
{
    if c.enabled {
        c.counts.ext4_lower_superblock_calls = c.counts.ext4_lower_superblock_calls.wrapping_add(value);
    }
}

/// Adds to `ext4_lower_superblock_ticks`.
pub fn ext4_lower_superblock_ticks(c: &mut Counters, value: usize)
    ensures
        *final(c) == counted(
            *old(c),
            Snapshot { ext4_lower_superblock_ticks: old(c).counts.ext4_lower_superblock_ticks.wrapping_add(value), ..old(c).counts },
        ),
{
    if c.enabled {
        c.counts.ext4_lower_superblock_ticks = c.counts.ext4_lower_superblock_ticks.wrapping_add(value);
    }
}

/// At the start every count is zero.
pub proof fn counting_starts_at_zero()
    ensures
        nothing_counted().file_closes == 0,
        nothing_counted().close_data_writebacks == 0,
        nothing_counted().explicit_fsyncs == 0,
        nothing_counted().filesystem_flushes == 0,
        nothing_counted().block_read_requests == 0,
        nothing_counted().block_read_bytes == 0,
        nothing_counted().block_read_ticks == 0,
        nothing_counted().block_read_512_or_less == 0,
        nothing_counted().block_read_4k_or_less == 0,
        nothing_counted().block_read_64k_or_less == 0,
        nothing_counted().block_read_over_64k == 0,
        nothing_counted().block_write_requests == 0,
        nothing_counted().block_write_bytes == 0,
        nothing_counted().block_write_ticks == 0,
        nothing_counted().block_flushes == 0,
        nothing_counted().page_cache_hits == 0,
        nothing_counted().page_cache_misses == 0,
        nothing_counted().page_cache_evictions == 0,
        nothing_counted().page_cache_writeback_bytes == 0,
        nothing_counted().page_cache_fill_calls == 0,
        nothing_counted().page_cache_fill_bytes == 0,
        nothing_counted().page_cache_fill_candidate_pages == 0,
        nothing_counted().page_cache_fill_published_pages == 0,
        nothing_counted().page_cache_fill_raced_pages == 0,
        nothing_counted().inode_read_calls == 0,
        nothing_counted().inode_read_requested_bytes == 0,
        nothing_counted().inode_read_completed_bytes == 0,
        nothing_counted().inode_read_ticks == 0,
        nothing_counted().ext4_stat_calls == 0,
        nothing_counted().ext4_stat_ticks == 0,
        nothing_counted().ext4_stat_cache_hits == 0,
        nothing_counted().ext4_stat_cache_misses == 0,
        nothing_counted().ext4_stat_cache_refills == 0,
        nothing_counted().ext4_stat_cache_uncacheable == 0,
        nothing_counted().ext4_stat_cache_invalidations == 0,
        nothing_counted().ext4_lookup_calls == 0,
        nothing_counted().ext4_lookup_ticks == 0,
        nothing_counted().ext4_readdir_calls == 0,
        nothing_counted().ext4_readdir_ticks == 0,
        nothing_counted().ext4_readdir_dirent_type_known == 0,
        nothing_counted().ext4_readdir_dirent_type_unknown == 0,
        nothing_counted().ext4_create_calls == 0,
        nothing_counted().ext4_create_ticks == 0,
        nothing_counted().ext4_write_calls == 0,
        nothing_counted().ext4_write_ticks == 0,
        nothing_counted().ext4_set_times_calls == 0,
        nothing_counted().ext4_set_times_atime_updates == 0,
        nothing_counted().ext4_set_times_mtime_updates == 0,
        nothing_counted().ext4_set_mode_calls == 0,
        nothing_counted().ext4_set_owner_calls == 0,
        nothing_counted().dentry_cache_hits == 0,
        nothing_counted().dentry_cache_misses == 0,
        nothing_counted().dentry_cache_evictions == 0,
        nothing_counted().dirty_pages_peak == 0,
        nothing_counted().anonymous_faults == 0,
        nothing_counted().private_file_faults == 0,
        nothing_counted().shared_file_faults == 0,
        nothing_counted().cow_faults == 0,
        nothing_counted().context_switches == 0,
        nothing_counted().local_sfences == 0,
        nothing_counted().local_sfence_ticks == 0,
        nothing_counted().local_sfence_max_ticks == 0,
        nothing_counted().remote_rfences == 0,
        nothing_counted().remote_rfence_target_harts == 0,
        nothing_counted().remote_rfence_empty_requests == 0,
        nothing_counted().remote_rfence_wait_ticks == 0,
        nothing_counted().remote_rfence_max_wait_ticks == 0,
        nothing_counted().full_tlb_invalidations == 0,
        nothing_counted().asid_tlb_invalidations == 0,
        nothing_counted().tlb_shootdown_all_requests == 0,
        nothing_counted().tlb_shootdown_address_space_requests == 0,
        nothing_counted().tlb_shootdown_range_requests == 0,
        nothing_counted().tlb_shootdown_range_pages == 0,
        nothing_counted().tlb_shootdown_range_max_pages == 0,
        nothing_counted().tlb_shootdown_range_single_page == 0,
        nothing_counted().tlb_shootdown_range_le16_pages == 0,
        nothing_counted().tlb_shootdown_range_le256_pages == 0,
        nothing_counted().tlb_shootdown_range_gt256_pages == 0,
        nothing_counted().tlb_shootdown_invalid_requests == 0,
        nothing_counted().tlb_flush_calls == 0,
        nothing_counted().tlb_fresh_map_flushes == 0,
        nothing_counted().tlb_cow_flushes == 0,
        nothing_counted().tlb_flush_retired_batches == 0,
        nothing_counted().tlb_flush_retired_frames == 0,
        nothing_counted().scheduler_ipis == 0,
        nothing_counted().ipis_received == 0,
        nothing_counted().scheduler_lock_acquisitions == 0,
        nothing_counted().scheduler_lock_wait_ticks == 0,
        nothing_counted().scheduler_lock_max_wait_ticks == 0,
        nothing_counted().scheduler_ready_peak == 0,
        nothing_counted().concurrency_samples == 0,
        nothing_counted().running_harts_0 == 0,
        nothing_counted().running_harts_1 == 0,
        nothing_counted().running_harts_2_3 == 0,
        nothing_counted().running_harts_4_7 == 0,
        nothing_counted().running_harts_8_plus == 0,
        nothing_counted().scheduler_ready_0 == 0,
        nothing_counted().scheduler_ready_1 == 0,
        nothing_counted().scheduler_ready_2_3 == 0,
        nothing_counted().scheduler_ready_4_7 == 0,
        nothing_counted().scheduler_ready_8_plus == 0,
        nothing_counted().scheduler_yields == 0,
        nothing_counted().syscall_yields == 0,
        nothing_counted().quiescence_yields == 0,
        nothing_counted().fs_yields == 0,
        nothing_counted().stdio_yields == 0,
        nothing_counted().tty_yields == 0,
        nothing_counted().pipe_yields == 0,
        nothing_counted().fs_syscall_yields == 0,
        nothing_counted().futex_yields == 0,
        nothing_counted().net_yields == 0,
        nothing_counted().unix_socket_yields == 0,
        nothing_counted().tcp_wait_yields == 0,
        nothing_counted().tcp_connect_yields == 0,
        nothing_counted().udp_wait_yields == 0,
        nothing_counted().process_yields == 0,
        nothing_counted().signal_time_yields == 0,
        nothing_counted().special_fd_yields == 0,
        nothing_counted().timer_preemptions == 0,
        nothing_counted().blocking_switches == 0,
        nothing_counted().task_running_ticks == 0,
        nothing_counted().idle_ticks == 0,
        nothing_counted().user_traps == 0,
        nothing_counted().user_syscall_traps == 0,
        nothing_counted().user_page_fault_traps == 0,
        nothing_counted().user_timer_traps == 0,
        nothing_counted().user_ipi_traps == 0,
        nothing_counted().extension_state_eager_saves == 0,
        nothing_counted().ext4_lock_acquisitions == 0,
        nothing_counted().ext4_lock_wait_ticks == 0,
        nothing_counted().ext4_lock_hold_ticks == 0,
        nothing_counted().ext4_lock_max_wait_ticks == 0,
        nothing_counted().ext4_lock_max_hold_ticks == 0,
        nothing_counted().ext4_lock_stat_acquisitions == 0,
        nothing_counted().ext4_lock_stat_wait_ticks == 0,
        nothing_counted().ext4_lock_stat_hold_ticks == 0,
        nothing_counted().ext4_lock_lookup_acquisitions == 0,
        nothing_counted().ext4_lock_lookup_wait_ticks == 0,
        nothing_counted().ext4_lock_lookup_hold_ticks == 0,
        nothing_counted().ext4_lock_read_acquisitions == 0,
        nothing_counted().ext4_lock_read_wait_ticks == 0,
        nothing_counted().ext4_lock_read_hold_ticks == 0,
        nothing_counted().ext4_lock_write_acquisitions == 0,
        nothing_counted().ext4_lock_write_wait_ticks == 0,
        nothing_counted().ext4_lock_write_hold_ticks == 0,
        nothing_counted().ext4_lock_readdir_acquisitions == 0,
        nothing_counted().ext4_lock_readdir_wait_ticks == 0,
        nothing_counted().ext4_lock_readdir_hold_ticks == 0,
        nothing_counted().ext4_lock_namespace_acquisitions == 0,
        nothing_counted().ext4_lock_namespace_wait_ticks == 0,
        nothing_counted().ext4_lock_namespace_hold_ticks == 0,
        nothing_counted().ext4_lock_attributes_acquisitions == 0,
        nothing_counted().ext4_lock_attributes_wait_ticks == 0,
        nothing_counted().ext4_lock_attributes_hold_ticks == 0,
        nothing_counted().ext4_lock_superblock_acquisitions == 0,
        nothing_counted().ext4_lock_superblock_wait_ticks == 0,
        nothing_counted().ext4_lock_superblock_hold_ticks == 0,
        nothing_counted().ext4_lower_calls == 0,
        nothing_counted().ext4_lower_ticks == 0,
        nothing_counted().ext4_lower_stat_calls == 0,
        nothing_counted().ext4_lower_stat_ticks == 0,
        nothing_counted().ext4_lower_lookup_calls == 0,
        nothing_counted().ext4_lower_lookup_ticks == 0,
        nothing_counted().ext4_lower_read_calls == 0,
        nothing_counted().ext4_lower_read_ticks == 0,
        nothing_counted().ext4_lower_write_calls == 0,
        nothing_counted().ext4_lower_write_ticks == 0,
        nothing_counted().ext4_lower_readdir_calls == 0,
        nothing_counted().ext4_lower_readdir_ticks == 0,
        nothing_counted().ext4_lower_namespace_calls == 0,
        nothing_counted().ext4_lower_namespace_ticks == 0,
        nothing_counted().ext4_lower_attributes_calls == 0,
        nothing_counted().ext4_lower_attributes_ticks == 0,
        nothing_counted().ext4_lower_superblock_calls == 0,
        nothing_counted().ext4_lower_superblock_ticks == 0,
        nothing_counted().frame_alloc_calls == 0,
        nothing_counted().frame_alloc_failures == 0,
        nothing_counted().frame_alloc_ticks == 0,
        nothing_counted().frame_alloc_lock_wait_ticks == 0,
        nothing_counted().frame_alloc_core_ticks == 0,
        nothing_counted().frame_alloc_clear_ticks == 0,
        nothing_counted().frame_alloc_max_ticks == 0,
        nothing_counted().frame_dealloc_calls == 0,
        nothing_counted().frame_dealloc_ticks == 0,
        nothing_counted().frame_dealloc_lock_wait_ticks == 0,
        nothing_counted().frame_dealloc_core_ticks == 0,
        nothing_counted().frame_dealloc_max_ticks == 0,
        nothing_counted().copy_from_user_calls == 0,
        nothing_counted().copy_from_user_bytes == 0,
        nothing_counted().copy_from_user_ticks == 0,
        nothing_counted().copy_to_user_calls == 0,
        nothing_counted().copy_to_user_bytes == 0,
        nothing_counted().copy_to_user_ticks == 0,
{
}

} // verus!
