//! The Kubernetes manifests that setup applies to the cluster.
use vstd::prelude::*;

use crate::text::{contains, occurs_at};

verus! {

/// cert-manager's namespace, the custom resource definition of a cluster
/// issuer, and a self-signed `ClusterIssuer`.
pub const CERT_MANAGER_MANIFEST: &'static str = r#"apiVersion: v1
kind: Namespace
metadata:
  name: cert-manager
---
apiVersion: apiextensions.k8s.io/v1
kind: CustomResourceDefinition
metadata:
  name: clusterissuers.cert-manager.io
spec:
  group: cert-manager.io
  names:
    kind: ClusterIssuer
    listKind: ClusterIssuerList
    plural: clusterissuers
    singular: clusterissuer
  scope: Cluster
  versions:
    - name: v1
      served: true
      storage: true
      schema:
        openAPIV3Schema:
          type: object
          x-kubernetes-preserve-unknown-fields: true
---
apiVersion: cert-manager.io/v1
kind: ClusterIssuer
metadata:
  name: ferrishost-selfsigned
spec:
  selfSigned: {}
"#;

/// The `ferrishost` namespace, the web service's account, and the cluster
/// role that lets it manage install jobs.
pub const RBAC_MANIFEST: &'static str = r#"apiVersion: v1
kind: Namespace
metadata:
  name: ferrishost
---
apiVersion: v1
kind: ServiceAccount
metadata:
  name: ferrishost-web
  namespace: ferrishost
---
apiVersion: rbac.authorization.k8s.io/v1
kind: ClusterRole
metadata:
  name: ferrishost-web
rules:
  - apiGroups: ["batch"]
    resources: ["jobs"]
    verbs: ["create", "get", "list", "watch", "delete"]
  - apiGroups: [""]
    resources: ["configmaps", "secrets", "nodes", "pods"]
    verbs: ["get", "list", "watch"]
---
apiVersion: rbac.authorization.k8s.io/v1
kind: ClusterRoleBinding
metadata:
  name: ferrishost-web
roleRef:
  apiGroup: rbac.authorization.k8s.io
  kind: ClusterRole
  name: ferrishost-web
subjects:
  - kind: ServiceAccount
    name: ferrishost-web
    namespace: ferrishost
"#;

/// The NVIDIA device plugin, run on every node.
pub const NVIDIA_MANIFEST: &'static str = r#"apiVersion: node.k8s.io/v1
kind: RuntimeClass
metadata:
  name: nvidia
handler: nvidia
---
apiVersion: apps/v1
kind: DaemonSet
metadata:
  name: nvidia-device-plugin-daemonset
  namespace: kube-system
spec:
  selector:
    matchLabels:
      name: nvidia-device-plugin-ds
  template:
    metadata:
      labels:
        name: nvidia-device-plugin-ds
    spec:
      runtimeClassName: nvidia
      tolerations:
        - key: nvidia.com/gpu
          operator: Exists
          effect: NoSchedule
      priorityClassName: system-node-critical
      containers:
        - name: nvidia-device-plugin-ctr
          image: nvcr.io/nvidia/k8s-device-plugin:v0.14.5
          securityContext:
            allowPrivilegeEscalation: false
            capabilities:
              drop: ["ALL"]
          volumeMounts:
            - name: device-plugin
              mountPath: /var/lib/kubelet/device-plugins
      volumes:
        - name: device-plugin
          hostPath:
            path: /var/lib/kubelet/device-plugins
"#;

/// The AMD device plugin, run on every node.
pub const AMD_MANIFEST: &'static str = r#"apiVersion: apps/v1
kind: DaemonSet
metadata:
  name: amdgpu-device-plugin-daemonset
  namespace: kube-system
spec:
  selector:
    matchLabels:
      name: amdgpu-dp-ds
  template:
    metadata:
      labels:
        name: amdgpu-dp-ds
    spec:
      priorityClassName: system-node-critical
      tolerations:
        - key: amd.com/gpu
          operator: Exists
          effect: NoSchedule
      containers:
        - name: amdgpu-dp-cntr
          image: rocm/k8s-device-plugin
          securityContext:
            allowPrivilegeEscalation: false
            capabilities:
              drop: ["ALL"]
          volumeMounts:
            - name: dp
              mountPath: /var/lib/kubelet/device-plugins
            - name: sys
              mountPath: /sys
      volumes:
        - name: dp
          hostPath:
            path: /var/lib/kubelet/device-plugins
        - name: sys
          hostPath:
            path: /sys
"#;

/// The cert-manager manifests are Kubernetes objects (`apiVersion`) and
/// define a custom resource (`CustomResourceDefinition`).
pub proof fn law_cert_manager_manifest_kinds()
    ensures
        CERT_MANAGER_MANIFEST@.len() > 0,
        contains(CERT_MANAGER_MANIFEST@, "apiVersion"@),
        contains(CERT_MANAGER_MANIFEST@, "CustomResourceDefinition"@),
{
    reveal_strlit(r#"apiVersion: v1
kind: Namespace
metadata:
  name: cert-manager
---
apiVersion: apiextensions.k8s.io/v1
kind: CustomResourceDefinition
metadata:
  name: clusterissuers.cert-manager.io
spec:
  group: cert-manager.io
  names:
    kind: ClusterIssuer
    listKind: ClusterIssuerList
    plural: clusterissuers
    singular: clusterissuer
  scope: Cluster
  versions:
    - name: v1
      served: true
      storage: true
      schema:
        openAPIV3Schema:
          type: object
          x-kubernetes-preserve-unknown-fields: true
---
apiVersion: cert-manager.io/v1
kind: ClusterIssuer
metadata:
  name: ferrishost-selfsigned
spec:
  selfSigned: {}
"#);
    reveal_strlit("apiVersion");
    assert(CERT_MANAGER_MANIFEST@.subrange(0, 10) =~= "apiVersion"@);
    assert(occurs_at(CERT_MANAGER_MANIFEST@, "apiVersion"@, 0));
    reveal_strlit("CustomResourceDefinition");
    assert(CERT_MANAGER_MANIFEST@.subrange(108, 132) =~= "CustomResourceDefinition"@);
    assert(occurs_at(CERT_MANAGER_MANIFEST@, "CustomResourceDefinition"@, 108));
}

/// The RBAC manifests hold a `Namespace` and a `ClusterRole`.
pub proof fn law_rbac_manifest_kinds()
    ensures
        RBAC_MANIFEST@.len() > 0,
        contains(RBAC_MANIFEST@, "Namespace"@),
        contains(RBAC_MANIFEST@, "ClusterRole"@),
{
    reveal_strlit(r#"apiVersion: v1
kind: Namespace
metadata:
  name: ferrishost
---
apiVersion: v1
kind: ServiceAccount
metadata:
  name: ferrishost-web
  namespace: ferrishost
---
apiVersion: rbac.authorization.k8s.io/v1
kind: ClusterRole
metadata:
  name: ferrishost-web
rules:
  - apiGroups: ["batch"]
    resources: ["jobs"]
    verbs: ["create", "get", "list", "watch", "delete"]
  - apiGroups: [""]
    resources: ["configmaps", "secrets", "nodes", "pods"]
    verbs: ["get", "list", "watch"]
---
apiVersion: rbac.authorization.k8s.io/v1
kind: ClusterRoleBinding
metadata:
  name: ferrishost-web
roleRef:
  apiGroup: rbac.authorization.k8s.io
  kind: ClusterRole
  name: ferrishost-web
subjects:
  - kind: ServiceAccount
    name: ferrishost-web
    namespace: ferrishost
"#);
    reveal_strlit("Namespace");
    assert(RBAC_MANIFEST@.subrange(21, 30) =~= "Namespace"@);
    assert(occurs_at(RBAC_MANIFEST@, "Namespace"@, 21));
    reveal_strlit("ClusterRole");
    assert(RBAC_MANIFEST@.subrange(208, 219) =~= "ClusterRole"@);
    assert(occurs_at(RBAC_MANIFEST@, "ClusterRole"@, 208));
}

/// The NVIDIA device plugin runs as a `DaemonSet`.
pub proof fn law_nvidia_manifest_kinds()
    ensures
        NVIDIA_MANIFEST@.len() > 0,
        contains(NVIDIA_MANIFEST@, "DaemonSet"@),
{
    reveal_strlit(r#"apiVersion: node.k8s.io/v1
kind: RuntimeClass
metadata:
  name: nvidia
handler: nvidia
---
apiVersion: apps/v1
kind: DaemonSet
metadata:
  name: nvidia-device-plugin-daemonset
  namespace: kube-system
spec:
  selector:
    matchLabels:
      name: nvidia-device-plugin-ds
  template:
    metadata:
      labels:
        name: nvidia-device-plugin-ds
    spec:
      runtimeClassName: nvidia
      tolerations:
        - key: nvidia.com/gpu
          operator: Exists
          effect: NoSchedule
      priorityClassName: system-node-critical
      containers:
        - name: nvidia-device-plugin-ctr
          image: nvcr.io/nvidia/k8s-device-plugin:v0.14.5
          securityContext:
            allowPrivilegeEscalation: false
            capabilities:
              drop: ["ALL"]
          volumeMounts:
            - name: device-plugin
              mountPath: /var/lib/kubelet/device-plugins
      volumes:
        - name: device-plugin
          hostPath:
            path: /var/lib/kubelet/device-plugins
"#);
    reveal_strlit("DaemonSet");
    assert(NVIDIA_MANIFEST@.subrange(117, 126) =~= "DaemonSet"@);
    assert(occurs_at(NVIDIA_MANIFEST@, "DaemonSet"@, 117));
}

/// The AMD device plugin runs as a `DaemonSet`.
pub proof fn law_amd_manifest_kinds()
    ensures
        AMD_MANIFEST@.len() > 0,
        contains(AMD_MANIFEST@, "DaemonSet"@),
{
    reveal_strlit(r#"apiVersion: apps/v1
kind: DaemonSet
metadata:
  name: amdgpu-device-plugin-daemonset
  namespace: kube-system
spec:
  selector:
    matchLabels:
      name: amdgpu-dp-ds
  template:
    metadata:
      labels:
        name: amdgpu-dp-ds
    spec:
      priorityClassName: system-node-critical
      tolerations:
        - key: amd.com/gpu
          operator: Exists
          effect: NoSchedule
      containers:
        - name: amdgpu-dp-cntr
          image: rocm/k8s-device-plugin
          securityContext:
            allowPrivilegeEscalation: false
            capabilities:
              drop: ["ALL"]
          volumeMounts:
            - name: dp
              mountPath: /var/lib/kubelet/device-plugins
            - name: sys
              mountPath: /sys
      volumes:
        - name: dp
          hostPath:
            path: /var/lib/kubelet/device-plugins
        - name: sys
          hostPath:
            path: /sys
"#);
    reveal_strlit("DaemonSet");
    assert(AMD_MANIFEST@.subrange(26, 35) =~= "DaemonSet"@);
    assert(occurs_at(AMD_MANIFEST@, "DaemonSet"@, 26));
}

} // verus!
